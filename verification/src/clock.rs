//! The wall clock.

use vstd::prelude::*;

verus! {

/// Calls `chrono::Local::now().timestamp_millis()`: the milliseconds since the
/// Unix epoch at the moment of the call. Nothing is claimed about the value.
#[verifier::external_body]
pub(crate) fn now_millis() -> i64 {
    chrono::Local::now().timestamp_millis()
}

} // verus!
