//! The wall clock, read to name recorded flights.
use vstd::prelude::*;

verus! {

/// The local date and time now, written `YYYY-MM-DD_hh-mm-ss` (chrono's `Local::now`,
/// formatted with `format`). It reads the clock and the machine's time zone, so nothing
/// is stated of the text: two calls may give different names.
#[verifier::external_body]
pub(crate) fn local_timestamp() -> (name: String) {
    chrono::Local::now().format("%Y-%m-%d_%H-%M-%S").to_string()
}

} // verus!
