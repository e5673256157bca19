//! Verified core of a build orchestrator: launch arguments per build target,
//! the shared process registry, the stderr narrative cleaner, the
//! compiler-diagnostic classifier and the per-run output pump; plus the
//! editor's text-selection model.
use vstd::prelude::*;

pub mod classify;
pub mod launch;
pub mod protocol;
pub mod pump;
pub mod registry;
pub mod selection;
pub mod server;
pub mod stderr;
pub mod text;

verus! {

} // verus!
