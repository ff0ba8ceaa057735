//! The model endpoints: ready-made presets, and the decisions around a
//! request that do not need the network.

pub mod openai;
pub mod presets;

use vstd::prelude::*;
use crate::context::Context;
use crate::suggestion::Suggestion;

verus! {

/// A source of command suggestions.
///
/// The trait exists so that the interactive and the direct mode need not know
/// which endpoint is configured, and so tests can substitute a stub for the
/// network. Nothing is promised of an implementation: its answer comes from
/// outside.
pub trait Provider {
    /// Suggest up to `count` commands for the task described by `task`.
    fn suggest(&self, ctx: &Context, task: &str, count: usize) -> Result<Vec<Suggestion>, String>;
}

} // verus!
