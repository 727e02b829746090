use vstd::prelude::*;

use crate::records::Timestamp;

verus! {

/// Whether `t` is a reading of the system clock as `chrono::Utc::now` gives
/// it: not before the Unix epoch, and less than a second past its whole
/// second.
pub open spec fn is_clock_reading(t: Timestamp) -> bool {
    &&& t.secs >= 0
    &&& t.nanos < 1_000_000_000
}

/// Whether `t` is a value that a reading of the system clock gave back:
/// what a call of `chrono::Utc::now` returned, as opposed to any other value.
pub closed spec fn read_from_clock(t: Timestamp) -> bool {
    call_ensures(now, (), t)
}

/// A value read from the clock is a clock reading.
pub proof fn lemma_read_from_clock_is_a_reading(t: Timestamp)
    requires
        read_from_clock(t),
    ensures
        is_clock_reading(t),
{
}

/// The current time, read with `chrono::Utc::now`.
///
/// chrono builds that value from `SystemTime::now()` measured from the Unix
/// epoch: whole seconds that are not negative, and the nanoseconds of a
/// `Duration`, which stay under one second. Which instant comes back is not
/// stated, and chrono panics when the system clock stands before the epoch.
#[verifier::external_body]
pub(crate) fn now() -> (t: Timestamp)
    ensures
        is_clock_reading(t),
{
    let now = chrono::Utc::now();
    Timestamp { secs: now.timestamp(), nanos: now.timestamp_subsec_nanos() }
}

/// Reads the system clock, and states that the value is the one it read.
pub(crate) fn read_clock() -> (t: Timestamp)
    ensures
        read_from_clock(t),
        is_clock_reading(t),
{
    let t = now();
    assert(call_ensures(now, (), t));
    t
}

} // verus!
