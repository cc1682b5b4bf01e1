//! The hard-failure type a command could surface to the dispatcher.

use vstd::prelude::*;

verus! {

/// A hard failure of interaction handling. The callout command's
/// handlers are total — their contracts state that they always return
/// the success case — so this type is never produced by them; it exists
/// so that totality is a stated, checked part of the command contract.
#[derive(Clone, Copy, PartialEq, Eq, Structural, Debug)]
pub enum InteractionError {
    /// The command could not handle the interaction.
    Unhandled,
}

} // verus!
