//! Time as the decision functions see it.
//!
//! Every function that depends on time takes the current reading of a
//! monotonic clock, in milliseconds, as an argument. A reading that lies
//! before a recorded instant counts as no time having passed.

use vstd::prelude::*;

verus! {

/// Milliseconds from `since` to `now`, zero where `now` lies before `since`.
pub open spec fn elapsed_ms(now: u64, since: u64) -> int {
    if now >= since {
        now - since
    } else {
        0
    }
}

/// Milliseconds from `since` to `now`, zero where `now` lies before `since`.
pub fn elapsed_since(now: u64, since: u64) -> (r: u64)
    ensures
        r == elapsed_ms(now, since),
{
    if now >= since {
        now - since
    } else {
        0
    }
}

/// A lockout of `cooldown_ms` that started at `last` is over at `now`. With
/// no recorded start there is no lockout.
pub open spec fn cooldown_over(last: Option<u64>, now: u64, cooldown_ms: u64) -> bool {
    match last {
        Some(t) => elapsed_ms(now, t) >= cooldown_ms,
        None => true,
    }
}

/// Whether a lockout of `cooldown_ms` that started at `last` is over at `now`.
pub fn cooldown_elapsed(last: Option<u64>, now: u64, cooldown_ms: u64) -> (r: bool)
    ensures
        r == cooldown_over(last, now, cooldown_ms),
{
    match last {
        Some(t) => elapsed_since(now, t) >= cooldown_ms,
        None => true,
    }
}

/// The later of a recorded instant and a new reading: recorded instants never
/// move backwards.
pub open spec fn later_of(last: Option<u64>, now: u64) -> u64 {
    match last {
        Some(t) => if t > now {
            t
        } else {
            now
        },
        None => now,
    }
}

/// The later of a recorded instant and a new reading.
pub fn advance(last: Option<u64>, now: u64) -> (r: u64)
    ensures
        r == later_of(last, now),
        r >= now,
        last matches Some(t) ==> r >= t,
{
    match last {
        Some(t) => if t > now {
            t
        } else {
            now
        },
        None => now,
    }
}

} // verus!
