//! Points in time and spans, in milliseconds on a monotonic clock.

use vstd::prelude::*;

verus! {

/// The point in time `span` after `now`. The far end of the clock stands for
/// every later point.
pub open spec fn later(now: u64, span: u64) -> u64 {
    if now + span <= u64::MAX {
        (now + span) as u64
    } else {
        u64::MAX
    }
}

/// The point in time `span` after `now`.
pub fn deadline(now: u64, span: u64) -> (r: u64)
    ensures
        r == later(now, span),
{
    now.saturating_add(span)
}

/// A span of whole seconds in milliseconds. The longest span stands for every
/// longer one.
pub open spec fn millis_of_secs(secs: u64) -> u64 {
    if secs * 1000 <= u64::MAX {
        (secs * 1000) as u64
    } else {
        u64::MAX
    }
}

/// A span of whole seconds in milliseconds.
pub fn millis(secs: u64) -> (r: u64)
    ensures
        r == millis_of_secs(secs),
{
    if secs <= u64::MAX / 1000 {
        secs * 1000
    } else {
        u64::MAX
    }
}

/// Time adds up: a point in time that is `span` later lies that much later, as long
/// as the clock reaches so far, and never earlier. Waiting in two parts is waiting
/// for both.
pub proof fn law_spans_add_up(now: u64, a: u64, b: u64)
    ensures
        now + a <= u64::MAX ==> later(now, a) - now == a,
        later(now, a) >= now,
        later(later(now, a), b) == later(later(now, b), a),
        a <= b ==> later(now, a) <= later(now, b),
{
}

/// A second is a thousand milliseconds.
pub proof fn law_a_second_is_a_thousand_milliseconds(secs: u64)
    requires
        secs < 0x10_0000_0000,
    ensures
        millis_of_secs(secs) == secs * 1000,
        millis_of_secs((secs + 1) as u64) - millis_of_secs(secs) == 1000,
{
}

} // verus!
