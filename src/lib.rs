use vstd::prelude::*;

pub mod commands;
pub mod compat;
pub mod launch;
pub mod paths;

verus! {

/// Time between two polls of an outside tool, in milliseconds.
pub const POLL_INTERVAL_MS: u64 = 100;

} // verus!
