//! The command contract: the capability set every slash command offers,
//! so that the dispatcher can treat all commands uniformly. The handler
//! entry points are total — they yield a well-formed payload for every
//! input and never surface an error to the dispatcher.

use vstd::prelude::*;

use crate::callout::Callout;
use crate::error::InteractionError;
use crate::interaction::{
    ApplicationCommandInteractionDataOption, ApplicationCommandOption,
    InteractionApplicationCommandCallbackData,
};
use crate::store::LookupStore;

verus! {

/// What every command exposes to the dispatcher: its metadata and the
/// two total handler entry points.
pub trait Command {
    /// Stable unique identifier; never empty.
    fn name(&self) -> (r: String)
        ensures
            r@.len() > 0,
    ;

    /// Human-readable description; never empty.
    fn description(&self) -> (r: String)
        ensures
            r@.len() > 0,
    ;

    /// The option schema advertised to the platform, in declaration
    /// order; the first declared option is the primary argument.
    fn options(&self) -> (r: Option<Vec<ApplicationCommandOption>>);

    /// The full-interaction handler, with the store capability injected.
    /// Total: for any input, including absent or empty options, it
    /// returns a payload and never a failure.
    fn respond<S: LookupStore>(
        &self,
        options: &Option<Vec<ApplicationCommandInteractionDataOption>>,
        store: &S,
    ) -> (r: Result<InteractionApplicationCommandCallbackData, InteractionError>)
        ensures
            r is Ok,
    ;

    /// The handler for partial, in-progress input. Total, and populates
    /// only the suggestion list: no text content, at least one choice,
    /// and no more than the platform's maximum of twenty-five.
    fn autocomplete(
        &self,
        options: &Option<Vec<ApplicationCommandInteractionDataOption>>,
    ) -> (r: Result<InteractionApplicationCommandCallbackData, InteractionError>)
        ensures
            r matches Ok(data) && (data@.content is None) && (data@.choices matches Some(choices)
                && 0 < choices.len() <= 25),
    ;
}

impl Command for Callout {
    fn name(&self) -> (r: String) {
        proof {
            reveal_strlit("callout");
        }
        Callout::name(self)
    }

    fn description(&self) -> (r: String) {
        proof {
            reveal_strlit("Grab out custom callouts");
        }
        Callout::description(self)
    }

    fn options(&self) -> (r: Option<Vec<ApplicationCommandOption>>) {
        Callout::options(self)
    }

    fn respond<S: LookupStore>(
        &self,
        options: &Option<Vec<ApplicationCommandInteractionDataOption>>,
        store: &S,
    ) -> (r: Result<InteractionApplicationCommandCallbackData, InteractionError>) {
        Callout::respond(self, options, store)
    }

    fn autocomplete(
        &self,
        options: &Option<Vec<ApplicationCommandInteractionDataOption>>,
    ) -> (r: Result<InteractionApplicationCommandCallbackData, InteractionError>) {
        Callout::autocomplete(self, options)
    }
}

} // verus!
