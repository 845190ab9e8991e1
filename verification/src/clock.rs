//! The time of day, read from the system.

use vstd::prelude::*;

verus! {

/// `chrono::Utc::now`, as milliseconds since the start of 1970
/// (`DateTime::timestamp_millis`). Nothing is claimed of the number: it is
/// whatever the system's clock says, and two readings may come in any
/// order. The call does not return where the clock is set before 1970.
#[verifier::external_body]
pub(crate) fn utc_now_millis() -> (now: i64) {
    chrono::Utc::now().timestamp_millis()
}

} // verus!
