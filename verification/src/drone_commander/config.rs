//! Where the commander keeps its missions.
use vstd::prelude::*;

verus! {

/// Missions are kept in local files, or by a remote mission store.
#[derive(Debug, Clone, Copy, PartialEq, Eq)]
pub enum Location {
    Local,
    Remote,
}

} // verus!
