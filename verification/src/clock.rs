//! The wall clock.

use vstd::prelude::*;

verus! {

/// Calls `chrono::Utc::now().timestamp()`: the current Unix time in seconds.
/// The value depends on the moment of the call, so nothing is claimed of it.
#[verifier::external_body]
pub(crate) fn current_timestamp() -> (t: i64) {
    chrono::Utc::now().timestamp()
}

} // verus!
