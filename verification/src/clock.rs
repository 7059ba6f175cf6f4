//! The time of day.

use k8s_openapi::jiff::Timestamp;
use vstd::prelude::*;

use crate::k8s::meta::Time;

verus! {

/// Calls `jiff::Timestamp::now`. Nothing is known of the time before it is asked for.
#[verifier::external_body]
pub(crate) fn now() -> (r: Time) {
    let t = Timestamp::now();
    Time { second: t.as_second(), nanosecond: t.subsec_nanosecond() }
}

} // verus!
