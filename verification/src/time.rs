//! The clock.

use vstd::prelude::*;

verus! {

/// Calls `chrono::Utc::now` and `timestamp_micros` on what it gives: the
/// microseconds since the Unix epoch at the moment of the call. The number
/// is not negative: `Utc::now` returns only where the machine's clock stands
/// at or after the epoch. Nothing more is promised of it.
#[verifier::external_body]
pub(crate) fn now_micros() -> (t: i64)
    ensures
        t >= 0,
{
    chrono::Utc::now().timestamp_micros()
}

} // verus!
