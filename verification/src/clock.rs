use vstd::prelude::*;

verus! {

use crate::time::{Moment, MOMENT_BOUND};

/// Relies on chrono::Local::now, read out through
/// chrono::DateTime::timestamp_millis: a wall-clock reading in milliseconds
/// since the Unix epoch. chrono datetimes span roughly 262,000 years either
/// side of the epoch (about 2^53 ms), so the reading stays far inside
/// MOMENT_BOUND. Nothing more is promised: the wall clock may read any
/// moment in that range, and may step backwards between calls.
#[verifier::external_body]
pub(crate) fn now_moment() -> (r: Moment)
    ensures
        -MOMENT_BOUND <= r.millis <= MOMENT_BOUND,
{
    Moment { millis: chrono::Local::now().timestamp_millis() }
}

} // verus!
