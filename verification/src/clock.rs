//! The time at which a record is accepted.

use vstd::prelude::*;

verus! {

#[verifier::external_type_specification]
#[verifier::external_body]
pub struct ExOffsetDateTime(time::OffsetDateTime);

/// Calls `time::OffsetDateTime::now_utc`, which reads the system clock.
/// Nothing is known of the instant that comes back.
#[verifier::external_body]
pub(crate) fn now_utc() -> time::OffsetDateTime {
    time::OffsetDateTime::now_utc()
}

} // verus!
