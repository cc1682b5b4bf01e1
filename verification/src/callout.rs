//! The callout command: resolves an invocation's options to a map name,
//! reads the store, and renders the outcome — applying a strict, ordered
//! fallback chain in which every failure becomes a text reply.

use vstd::prelude::*;
use vstd::string::StrSliceExecFns;
use vstd::string::StringExecFns;

use crate::argument::{matches_canonical, Arguments};
use crate::error::InteractionError;
use crate::interaction::{
    ApplicationCommandInteractionDataOption, ApplicationCommandOption,
    ApplicationCommandOptionChoice, ApplicationCommandOptionType, CallbackDataView,
    ChoiceView, CommandOptionView, DataOptionView, InteractionApplicationCommandCallbackData,
};
use crate::store::LookupStore;

verus! {

/// The slash command that fetches callout images for maps.
pub struct Callout {}

/// Reply text when an invocation carries no usable option.
pub open spec fn no_options_message() -> Seq<char> {
    "No options supplied."@
}

/// Reply text when the map option arrives without a value.
pub open spec fn no_value_message() -> Seq<char> {
    "No map option sent with request."@
}

/// Reply text telling the operator that the store binding is missing.
pub open spec fn store_unavailable_message() -> Seq<char> {
    "Could not find CALLOUTS KV namespace, make sure it is bound in wrangler."@
}

/// Reply text when the store holds nothing under the requested name: the
/// fixed prefix followed by the bare name, verbatim.
pub open spec fn not_found_message(name: Seq<char>) -> Seq<char> {
    "No image found for "@ + name
}

/// The exhaustive result of one resolution attempt, before rendering.
#[derive(Clone, PartialEq, Eq, Debug)]
pub enum ResolutionOutcome {
    /// The store held text under the requested name; carries that text.
    Success(String),
    /// The requested name (carried here, bare) was absent from the store,
    /// or the read itself failed.
    NotFound(String),
    /// The store binding could not be obtained; carries the
    /// operator-facing reason text.
    StoreUnavailable(String),
    /// The invocation carried no options at all, or its first option
    /// names no known argument.
    NoOptionsSupplied,
    /// The map option was present but carried no value.
    NoValueSupplied,
}

/// The mathematical content of a resolution outcome.
pub enum OutcomeView {
    Success(Seq<char>),
    NotFound(Seq<char>),
    StoreUnavailable(Seq<char>),
    NoOptionsSupplied,
    NoValueSupplied,
}

impl View for ResolutionOutcome {
    type V = OutcomeView;

    open spec fn view(&self) -> OutcomeView {
        match self {
            ResolutionOutcome::Success(text) => OutcomeView::Success(text@),
            ResolutionOutcome::NotFound(name) => OutcomeView::NotFound(name@),
            ResolutionOutcome::StoreUnavailable(reason) => OutcomeView::StoreUnavailable(reason@),
            ResolutionOutcome::NoOptionsSupplied => OutcomeView::NoOptionsSupplied,
            ResolutionOutcome::NoValueSupplied => OutcomeView::NoValueSupplied,
        }
    }
}

/// The step the resolver takes before any store access: either the reply
/// is already settled, or the store must be read under the carried key.
pub enum LookupPlan {
    Settled(ResolutionOutcome),
    Lookup(String),
}

/// The mathematical content of a resolver step.
pub enum PlanView {
    Settled(OutcomeView),
    Lookup(Seq<char>),
}

impl View for LookupPlan {
    type V = PlanView;

    open spec fn view(&self) -> PlanView {
        match self {
            LookupPlan::Settled(outcome) => PlanView::Settled(outcome@),
            LookupPlan::Lookup(key) => PlanView::Lookup(key@),
        }
    }
}

/// What the host's store access produced: the binding was missing, the
/// read found text, or the key was absent (or the read itself failed).
pub enum StoreEvent {
    Unavailable,
    Found(String),
    Missing,
}

/// The mathematical content of a store event.
pub enum EventView {
    Unavailable,
    Found(Seq<char>),
    Missing,
}

impl View for StoreEvent {
    type V = EventView;

    open spec fn view(&self) -> EventView {
        match self {
            StoreEvent::Unavailable => EventView::Unavailable,
            StoreEvent::Found(text) => EventView::Found(text@),
            StoreEvent::Missing => EventView::Missing,
        }
    }
}

/// A reply carrying only the given text.
pub open spec fn spec_text_reply(text: Seq<char>) -> CallbackDataView {
    CallbackDataView { content: Some(text), embeds: None, choices: None }
}

/// Whether the received options target the map argument: some options
/// arrived and the first of them names the map argument. Only the first
/// received option is inspected, since the schema declares exactly one.
pub open spec fn spec_targets_map(opts: Option<Seq<DataOptionView>>) -> bool {
    match opts {
        Some(s) => s.len() > 0 && matches_canonical(s[0].name, Arguments::MapName.canonical_spec()),
        None => false,
    }
}

/// Which step `respond` takes before any store access, from the received
/// options alone.
pub open spec fn spec_plan(opts: Option<Seq<DataOptionView>>) -> PlanView {
    if !spec_targets_map(opts) {
        PlanView::Settled(OutcomeView::NoOptionsSupplied)
    } else {
        match (opts->0)[0].value {
            Some(key) => PlanView::Lookup(key),
            None => PlanView::Settled(OutcomeView::NoValueSupplied),
        }
    }
}

/// The outcome that a store event settles for the requested key.
pub open spec fn spec_outcome_of_event(key: Seq<char>, event: EventView) -> OutcomeView {
    match event {
        EventView::Unavailable => OutcomeView::StoreUnavailable(store_unavailable_message()),
        EventView::Found(text) => OutcomeView::Success(text),
        EventView::Missing => OutcomeView::NotFound(key),
    }
}

/// The text reply each outcome renders to: found text verbatim, every
/// other outcome its message.
pub open spec fn spec_render(outcome: OutcomeView) -> CallbackDataView {
    match outcome {
        OutcomeView::Success(text) => spec_text_reply(text),
        OutcomeView::NotFound(name) => spec_text_reply(not_found_message(name)),
        OutcomeView::StoreUnavailable(reason) => spec_text_reply(reason),
        OutcomeView::NoOptionsSupplied => spec_text_reply(no_options_message()),
        OutcomeView::NoValueSupplied => spec_text_reply(no_value_message()),
    }
}

/// The full behavior of one invocation against a reachable store with
/// the given contents: plan from the options, read the store where the
/// plan asks for it, and render the outcome.
pub open spec fn spec_respond(
    opts: Option<Seq<DataOptionView>>,
    store: Map<Seq<char>, Seq<char>>,
) -> CallbackDataView {
    match spec_plan(opts) {
        PlanView::Settled(outcome) => spec_render(outcome),
        PlanView::Lookup(key) => if store.contains_key(key) {
            spec_render(OutcomeView::Success(store.index(key)))
        } else {
            spec_render(OutcomeView::NotFound(key))
        },
    }
}

/// The fixed suggestions offered while the user is typing a map name.
pub open spec fn spec_autocomplete_reply() -> CallbackDataView {
    CallbackDataView {
        content: None,
        embeds: None,
        choices: Some(
            seq![
                ChoiceView { name: "Wahoo World"@, value: "wahoo"@ },
                ChoiceView { name: "Undertow Spillway"@, value: "undertow"@ },
            ],
        ),
    }
}

/// The declared schema of the single `map` option.
pub open spec fn spec_map_option_decl() -> CommandOptionView {
    CommandOptionView {
        name: "map"@,
        autocomplete: Some(true),
        description: "The name of the map to get callouts image for."@,
        required: Some(true),
        ty: ApplicationCommandOptionType::StringInput,
        choices: None,
    }
}

/// Decides, from the received options alone, whether the reply is
/// already settled or which key the store must be read under.
pub fn plan_respond(
    options: &Option<Vec<ApplicationCommandInteractionDataOption>>,
) -> (p: LookupPlan)
    ensures
        p@ == spec_plan(options.deep_view()),
{
    if let Some(opts) = options {
        if opts.len() > 0 {
            let first = &opts[0];
            if Arguments::MapName.matches_name(first.name.as_str()) {
                return match &first.value {
                    Some(value) => LookupPlan::Lookup(value.clone()),
                    None => LookupPlan::Settled(ResolutionOutcome::NoValueSupplied),
                };
            }
        }
    }
    LookupPlan::Settled(ResolutionOutcome::NoOptionsSupplied)
}

/// Folds what the host's store access produced into the outcome for the
/// requested key: found text succeeds verbatim, a missing binding is
/// reported to the operator, everything else is a definitive not-found.
pub fn outcome_of_event(key: &String, event: StoreEvent) -> (outcome: ResolutionOutcome)
    ensures
        outcome@ == spec_outcome_of_event(key@, event@),
{
    match event {
        StoreEvent::Unavailable => ResolutionOutcome::StoreUnavailable(
            String::from_str(
                "Could not find CALLOUTS KV namespace, make sure it is bound in wrangler.",
            ),
        ),
        StoreEvent::Found(text) => ResolutionOutcome::Success(text),
        StoreEvent::Missing => ResolutionOutcome::NotFound(key.clone()),
    }
}

/// Builds a reply carrying only the given text.
fn text_reply(text: String) -> (data: InteractionApplicationCommandCallbackData)
    ensures
        data@ == spec_text_reply(text@),
{
    InteractionApplicationCommandCallbackData { content: Some(text), embeds: None, choices: None }
}

/// Renders an outcome as the reply payload. Exhaustive over the outcome:
/// every fallback becomes text, so resolution never surfaces a failure.
pub fn render(outcome: ResolutionOutcome) -> (data: InteractionApplicationCommandCallbackData)
    ensures
        data@ == spec_render(outcome@),
{
    match outcome {
        ResolutionOutcome::Success(text) => text_reply(text),
        ResolutionOutcome::NotFound(name) => text_reply(
            String::from_str("No image found for ").concat(name.as_str()),
        ),
        ResolutionOutcome::StoreUnavailable(reason) => text_reply(reason),
        ResolutionOutcome::NoOptionsSupplied => text_reply(String::from_str("No options supplied.")),
        ResolutionOutcome::NoValueSupplied => text_reply(
            String::from_str("No map option sent with request."),
        ),
    }
}

impl Callout {
    /// The command's stable identifier.
    pub fn name(&self) -> (r: String)
        ensures
            r@ == "callout"@,
            r@.len() > 0,
    {
        proof {
            reveal_strlit("callout");
        }
        String::from_str("callout")
    }

    /// The command's human-readable description.
    pub fn description(&self) -> (r: String)
        ensures
            r@ == "Grab out custom callouts"@,
            r@.len() > 0,
    {
        proof {
            reveal_strlit("Grab out custom callouts");
        }
        String::from_str("Grab out custom callouts")
    }

    /// The advertised schema: exactly one required string option, named
    /// `map`, with autocomplete enabled.
    pub fn options(&self) -> (r: Option<Vec<ApplicationCommandOption>>)
        ensures
            r matches Some(decls) && decls@.len() == 1 && decls@[0]@ == spec_map_option_decl(),
    {
        let decl = ApplicationCommandOption {
            name: String::from_str("map"),
            autocomplete: Some(true),
            description: String::from_str("The name of the map to get callouts image for."),
            required: Some(true),
            ty: ApplicationCommandOptionType::StringInput,
            choices: None,
        };
        let decls = vec![decl];
        Some(decls)
    }

    /// Builds the reply for a failed or fallback resolution: the message
    /// itself becomes the reply's content. Total, as every handler here.
    pub fn handle_error(error: &String) -> (r: Result<
        InteractionApplicationCommandCallbackData,
        InteractionError,
    >)
        ensures
            r matches Ok(data) && data@ == spec_text_reply(error@),
    {
        Ok(text_reply(error.clone()))
    }

    /// Resolves the map option's value against the store: a missing value
    /// falls back before the store is read; otherwise the value is the
    /// exact key (no case folding) and a found text is returned verbatim,
    /// an absent key becomes the not-found reply.
    pub fn handle_map<S: LookupStore>(map_name: &Option<String>, store: &S) -> (r: Result<
        InteractionApplicationCommandCallbackData,
        InteractionError,
    >)
        ensures
            r matches Ok(data) && data@ == match map_name.deep_view() {
                Some(key) => if store.contents().contains_key(key) {
                    spec_text_reply(store.contents().index(key))
                } else {
                    spec_text_reply(not_found_message(key))
                },
                None => spec_text_reply(no_value_message()),
            },
    {
        match map_name {
            Some(name) => {
                let found = store.get(name);
                let event = match found {
                    Some(text) => StoreEvent::Found(text),
                    None => StoreEvent::Missing,
                };
                Ok(render(outcome_of_event(name, event)))
            },
            None => Ok(render(ResolutionOutcome::NoValueSupplied)),
        }
    }

    /// Handles one full invocation against the given store. Total: every
    /// input, including absent or malformed options, yields the reply
    /// that `spec_respond` fixes, never an error.
    pub fn respond<S: LookupStore>(
        &self,
        options: &Option<Vec<ApplicationCommandInteractionDataOption>>,
        store: &S,
    ) -> (r: Result<InteractionApplicationCommandCallbackData, InteractionError>)
        ensures
            r matches Ok(data) && data@ == spec_respond(options.deep_view(), store.contents()),
    {
        match plan_respond(options) {
            LookupPlan::Settled(outcome) => Ok(render(outcome)),
            LookupPlan::Lookup(key) => {
                let found = store.get(&key);
                let event = match found {
                    Some(text) => StoreEvent::Found(text),
                    None => StoreEvent::Missing,
                };
                Ok(render(outcome_of_event(&key, event)))
            },
        }
    }

    /// The suggestions offered while the user is still typing the map
    /// option's value. The partial input is accepted but not yet used to
    /// filter: the reply is the fixed list, with no text content.
    pub fn autocomplete(
        &self,
        _options: &Option<Vec<ApplicationCommandInteractionDataOption>>,
    ) -> (r: Result<InteractionApplicationCommandCallbackData, InteractionError>)
        ensures
            r matches Ok(data) && data@ == spec_autocomplete_reply(),
    {
        let choices = vec![
            ApplicationCommandOptionChoice {
                name: String::from_str("Wahoo World"),
                value: String::from_str("wahoo"),
            },
            ApplicationCommandOptionChoice {
                name: String::from_str("Undertow Spillway"),
                value: String::from_str("undertow"),
            },
        ];
        let data = InteractionApplicationCommandCallbackData {
            content: None,
            embeds: None,
            choices: Some(choices),
        };
        proof {
            assert(data@.choices->0 =~= spec_autocomplete_reply().choices->0);
            assert(data@ =~= spec_autocomplete_reply());
        }
        Ok(data)
    }
}

} // verus!
