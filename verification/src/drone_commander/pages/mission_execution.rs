//! The mission page's link modes.
use vstd::prelude::*;

verus! {

/// Where the mission's trajectories run: streamed from the ground, stored on the
/// vehicle, or streamed after storing them failed.
#[derive(Debug, Clone, Copy, PartialEq, Eq)]
pub enum ExecutionMode {
    Offline,
    Online,
    FailedUpload,
}

} // verus!
