//! Page routing vocabulary of the commander's pages.
use vstd::prelude::*;

verus! {

/// Moving through a list of choices, or choosing the highlighted one.
#[derive(Debug, Clone, Copy, PartialEq, Eq)]
pub enum NavigationMessage {
    Up,
    Down,
    Select,
}

} // verus!
