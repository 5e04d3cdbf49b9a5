//! The caller's clock.

use vstd::prelude::*;

verus! {

/// `time::OffsetDateTime::now_utc()`, as nanoseconds since the Unix epoch.
/// Nothing is claimed of the instant. The call takes no argument; it fails
/// only on a machine whose clock lies outside the years that the type holds.
#[verifier::external_body]
pub(crate) fn now_utc() -> i128 {
    time::OffsetDateTime::now_utc().unix_timestamp_nanos()
}

} // verus!
