use callout::callout::{
    outcome_of_event, plan_respond, render, Callout, LookupPlan, ResolutionOutcome, StoreEvent,
};
use callout::command::Command;
use callout::interaction::{
    ApplicationCommandInteractionDataOption, ApplicationCommandOptionType,
    InteractionApplicationCommandCallbackData,
};
use callout::store::{LookupStore, MemoryStore};

fn map_option(name: &str, value: Option<&str>) -> ApplicationCommandInteractionDataOption {
    ApplicationCommandInteractionDataOption {
        name: name.to_string(),
        value: value.map(|v| v.to_string()),
        ty: ApplicationCommandOptionType::StringInput,
    }
}

fn respond(
    options: &Option<Vec<ApplicationCommandInteractionDataOption>>,
    store: &MemoryStore,
) -> InteractionApplicationCommandCallbackData {
    let command = Callout {};
    command.respond(options, store).unwrap()
}

fn store_with_wahoo() -> MemoryStore {
    let mut store = MemoryStore::new();
    store.insert("wahoo".to_string(), "<url-a>".to_string());
    store
}

#[test]
fn held_key_returns_stored_text_verbatim() {
    let store = store_with_wahoo();
    let options = Some(vec![map_option("map", Some("wahoo"))]);
    let reply = respond(&options, &store);
    assert_eq!(reply.content, Some("<url-a>".to_string()));
    assert_eq!(reply.choices, None);
    assert_eq!(reply.embeds, None);
}

#[test]
fn absent_key_names_itself_in_message() {
    let store = store_with_wahoo();
    let options = Some(vec![map_option("map", Some("sandtrap"))]);
    let reply = respond(&options, &store);
    assert_eq!(reply.content, Some("No image found for sandtrap".to_string()));
    assert_eq!(reply.choices, None);
    assert_eq!(reply.embeds, None);
}

#[test]
fn no_options_at_all() {
    let store = store_with_wahoo();
    let reply = respond(&None, &store);
    assert_eq!(reply.content, Some("No options supplied.".to_string()));
}

#[test]
fn empty_option_list() {
    let store = store_with_wahoo();
    let reply = respond(&Some(vec![]), &store);
    assert_eq!(reply.content, Some("No options supplied.".to_string()));
}

#[test]
fn unrecognized_option_name() {
    let store = store_with_wahoo();
    let options = Some(vec![map_option("paintball", Some("wahoo"))]);
    let reply = respond(&options, &store);
    assert_eq!(reply.content, Some("No options supplied.".to_string()));
}

#[test]
fn map_option_without_value() {
    let store = store_with_wahoo();
    let options = Some(vec![map_option("map", None)]);
    let reply = respond(&options, &store);
    assert_eq!(reply.content, Some("No map option sent with request.".to_string()));
}

#[test]
fn option_name_matching_is_case_insensitive() {
    let store = store_with_wahoo();
    for name in ["map", "MAP", "Map", "mAp"] {
        let options = Some(vec![map_option(name, Some("wahoo"))]);
        let reply = respond(&options, &store);
        assert_eq!(reply.content, Some("<url-a>".to_string()));
    }
}

#[test]
fn option_values_are_case_sensitive_keys() {
    let store = store_with_wahoo();
    let options = Some(vec![map_option("map", Some("Wahoo"))]);
    let reply = respond(&options, &store);
    assert_eq!(reply.content, Some("No image found for Wahoo".to_string()));
}

#[test]
fn autocomplete_returns_only_choices() {
    let command = Callout {};
    let inputs = [
        None,
        Some(vec![]),
        Some(vec![map_option("map", Some("wah"))]),
        Some(vec![map_option("other", None)]),
    ];
    for options in inputs {
        let reply = command.autocomplete(&options).unwrap();
        assert_eq!(reply.content, None);
        assert_eq!(reply.embeds, None);
        let choices = reply.choices.expect("choices must be present");
        assert!(!choices.is_empty());
        assert!(choices.len() <= 25);
        assert_eq!(choices[0].name, "Wahoo World".to_string());
        assert_eq!(choices[0].value, "wahoo".to_string());
        assert_eq!(choices[1].name, "Undertow Spillway".to_string());
        assert_eq!(choices[1].value, "undertow".to_string());
    }
}

#[test]
fn repeated_invocations_are_identical() {
    let store = store_with_wahoo();
    let cases = [
        None,
        Some(vec![]),
        Some(vec![map_option("map", Some("wahoo"))]),
        Some(vec![map_option("map", Some("sandtrap"))]),
        Some(vec![map_option("map", None)]),
    ];
    for options in cases {
        let first = respond(&options, &store);
        let second = respond(&options, &store);
        assert_eq!(first, second);
    }
}

#[test]
fn store_scenario_wahoo() {
    let store = store_with_wahoo();
    let options = Some(vec![map_option("map", Some("wahoo"))]);
    let reply = respond(&options, &store);
    let expected = InteractionApplicationCommandCallbackData {
        content: Some("<url-a>".to_string()),
        embeds: None,
        choices: None,
    };
    assert_eq!(reply, expected);
}

#[test]
fn missing_store_binding_reports_to_operator() {
    let key = "wahoo".to_string();
    let outcome = outcome_of_event(&key, StoreEvent::Unavailable);
    let reply = render(outcome);
    assert_eq!(
        reply.content,
        Some("Could not find CALLOUTS KV namespace, make sure it is bound in wrangler.".to_string())
    );
    assert_eq!(reply.choices, None);
}

#[test]
fn store_events_settle_outcomes() {
    let key = "wahoo".to_string();
    assert_eq!(
        outcome_of_event(&key, StoreEvent::Found("<url-a>".to_string())),
        ResolutionOutcome::Success("<url-a>".to_string())
    );
    assert_eq!(
        outcome_of_event(&key, StoreEvent::Missing),
        ResolutionOutcome::NotFound("wahoo".to_string())
    );
}

#[test]
fn plan_asks_for_lookup_of_the_value() {
    let options = Some(vec![map_option("Map", Some("undertow"))]);
    match plan_respond(&options) {
        LookupPlan::Lookup(key) => assert_eq!(key, "undertow".to_string()),
        LookupPlan::Settled(_) => panic!("expected a lookup plan"),
    }
}

#[test]
fn plan_settles_without_options() {
    match plan_respond(&None) {
        LookupPlan::Settled(outcome) => {
            assert_eq!(outcome, ResolutionOutcome::NoOptionsSupplied)
        }
        LookupPlan::Lookup(_) => panic!("expected a settled plan"),
    }
}

#[test]
fn plan_settles_on_valueless_option() {
    let options = Some(vec![map_option("map", None)]);
    match plan_respond(&options) {
        LookupPlan::Settled(outcome) => {
            assert_eq!(outcome, ResolutionOutcome::NoValueSupplied)
        }
        LookupPlan::Lookup(_) => panic!("expected a settled plan"),
    }
}

#[test]
fn rendering_is_exhaustive_over_outcomes() {
    let success = render(ResolutionOutcome::Success("text".to_string()));
    assert_eq!(success.content, Some("text".to_string()));
    let not_found = render(ResolutionOutcome::NotFound("eel".to_string()));
    assert_eq!(not_found.content, Some("No image found for eel".to_string()));
    let unavailable = render(ResolutionOutcome::StoreUnavailable("reason".to_string()));
    assert_eq!(unavailable.content, Some("reason".to_string()));
    let no_options = render(ResolutionOutcome::NoOptionsSupplied);
    assert_eq!(no_options.content, Some("No options supplied.".to_string()));
    let no_value = render(ResolutionOutcome::NoValueSupplied);
    assert_eq!(no_value.content, Some("No map option sent with request.".to_string()));
}

#[test]
fn handle_error_wraps_message_as_content() {
    let message = "anything at all".to_string();
    let reply = Callout::handle_error(&message).unwrap();
    assert_eq!(reply.content, Some("anything at all".to_string()));
    assert_eq!(reply.choices, None);
    assert_eq!(reply.embeds, None);
}

#[test]
fn handle_map_without_value() {
    let store = store_with_wahoo();
    let reply = Callout::handle_map(&None, &store).unwrap();
    assert_eq!(reply.content, Some("No map option sent with request.".to_string()));
}

#[test]
fn handle_map_reads_exact_key() {
    let store = store_with_wahoo();
    let reply = Callout::handle_map(&Some("wahoo".to_string()), &store).unwrap();
    assert_eq!(reply.content, Some("<url-a>".to_string()));
}

#[test]
fn memory_store_reads_and_replaces() {
    let mut store = MemoryStore::new();
    assert_eq!(store.get(&"wahoo".to_string()), None);
    store.insert("wahoo".to_string(), "first".to_string());
    store.insert("undertow".to_string(), "second".to_string());
    assert_eq!(store.get(&"wahoo".to_string()), Some("first".to_string()));
    assert_eq!(store.get(&"undertow".to_string()), Some("second".to_string()));
    store.insert("wahoo".to_string(), "third".to_string());
    assert_eq!(store.get(&"wahoo".to_string()), Some("third".to_string()));
}

#[test]
fn metadata_matches_declaration() {
    let command = Callout {};
    assert_eq!(Command::name(&command), "callout".to_string());
    assert_eq!(Command::description(&command), "Grab out custom callouts".to_string());
    let declarations = Command::options(&command).expect("schema must be declared");
    assert_eq!(declarations.len(), 1);
    let declaration = &declarations[0];
    assert_eq!(declaration.name, "map".to_string());
    assert_eq!(declaration.autocomplete, Some(true));
    assert_eq!(
        declaration.description,
        "The name of the map to get callouts image for.".to_string()
    );
    assert_eq!(declaration.required, Some(true));
    assert_eq!(declaration.ty, ApplicationCommandOptionType::StringInput);
    assert!(declaration.choices.is_none());
}
