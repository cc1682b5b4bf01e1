//! The laws of the resolution pipeline, each stated over the spec
//! functions that the executable contracts are pinned to.

use vstd::prelude::*;

use crate::argument::{lower, lower_char, matches_canonical, Arguments};
use crate::callout::{
    no_options_message, no_value_message, not_found_message, spec_respond, spec_targets_map,
    spec_text_reply,
};
use crate::interaction::{CallbackDataView, DataOptionView};

verus! {

/// Option-name matching is case-insensitive: lowercasing a received
/// name first never changes which argument it resolves to, so names
/// differing only in case all resolve alike.
pub proof fn lemma_matching_case_insensitive(name: Seq<char>, arg: Arguments)
    ensures
        matches_canonical(lower(name), arg.canonical_spec()) == matches_canonical(
            name,
            arg.canonical_spec(),
        ),
{
    assert(lower(lower(name)) =~= lower(name)) by {
        assert forall|i: int| 0 <= i < name.len() implies lower(lower(name))[i] == lower(name)[i] by {
            assert(lower(name)[i] == lower_char(name[i]));
            assert(lower(lower(name))[i] == lower_char(lower_char(name[i])));
        }
    }
}

/// Case-insensitivity lifted to the whole pipeline: two invocations
/// whose first options differ only in the case of their names — the
/// values, which are store keys, stay case-significant — get the same
/// reply from the same store.
pub proof fn lemma_respond_ignores_name_case(
    first: Option<Seq<DataOptionView>>,
    second: Option<Seq<DataOptionView>>,
    store: Map<Seq<char>, Seq<char>>,
)
    requires
        first is Some,
        second is Some,
        (first->0).len() > 0,
        (second->0).len() > 0,
        lower((first->0)[0].name) == lower((second->0)[0].name),
        (first->0)[0].value == (second->0)[0].value,
    ensures
        spec_respond(first, store) == spec_respond(second, store),
{
}

/// Held keys answer verbatim: whenever the invocation targets the map
/// argument with a value the store holds, the reply's content is exactly
/// the stored text, with no transformation.
pub proof fn lemma_success_verbatim(
    opts: Option<Seq<DataOptionView>>,
    store: Map<Seq<char>, Seq<char>>,
)
    requires
        spec_targets_map(opts),
        (opts->0)[0].value is Some,
        store.contains_key((opts->0)[0].value->0),
    ensures
        spec_respond(opts, store) == spec_text_reply(store.index((opts->0)[0].value->0)),
{
}

/// Absent keys name themselves: whenever the invocation targets the map
/// argument with a value the store does not hold, the reply's content is
/// exactly the fixed prefix followed by that bare value.
pub proof fn lemma_not_found_names_key(
    opts: Option<Seq<DataOptionView>>,
    store: Map<Seq<char>, Seq<char>>,
)
    requires
        spec_targets_map(opts),
        (opts->0)[0].value is Some,
        !store.contains_key((opts->0)[0].value->0),
    ensures
        spec_respond(opts, store) == spec_text_reply(
            not_found_message((opts->0)[0].value->0),
        ),
        spec_respond(opts, store).content == Some(
            "No image found for "@ + (opts->0)[0].value->0,
        ),
{
}

/// An invocation that does not target the map argument — no options at
/// all, an empty option list, or an unrecognized first option name —
/// settles to the no-options reply without touching the store.
pub proof fn lemma_no_options(opts: Option<Seq<DataOptionView>>, store: Map<Seq<char>, Seq<char>>)
    requires
        !spec_targets_map(opts),
    ensures
        spec_respond(opts, store) == spec_text_reply(no_options_message()),
{
}

/// A map option that arrives without a value settles to the no-value
/// reply without touching the store.
pub proof fn lemma_no_value(opts: Option<Seq<DataOptionView>>, store: Map<Seq<char>, Seq<char>>)
    requires
        spec_targets_map(opts),
        (opts->0)[0].value is None,
    ensures
        spec_respond(opts, store) == spec_text_reply(no_value_message()),
{
}

/// Idempotence: the reply is a function of the invocation and the store
/// contents alone, so repeated identical invocations against an
/// unchanged store yield identical payloads.
pub proof fn lemma_respond_idempotent(
    first: CallbackDataView,
    second: CallbackDataView,
    opts: Option<Seq<DataOptionView>>,
    store: Map<Seq<char>, Seq<char>>,
)
    requires
        first == spec_respond(opts, store),
        second == spec_respond(opts, store),
    ensures
        first == second,
{
}

/// Totality of rendering: every resolution, whatever the options and
/// store, carries text content and neither choices nor embeds.
pub proof fn lemma_respond_is_text(opts: Option<Seq<DataOptionView>>, store: Map<Seq<char>, Seq<char>>)
    ensures
        spec_respond(opts, store).content is Some,
        spec_respond(opts, store).choices is None,
        spec_respond(opts, store).embeds is None,
{
}

} // verus!
