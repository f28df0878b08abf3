//! The timeout guard: a pure re-entry check that bounds duplicate in-flight
//! requests. A new request is rejected exactly while an earlier one is
//! unsettled and younger than the minimum interval; the check has no side
//! effects and is evaluated lazily on each new attempt.

use vstd::prelude::*;

verus! {

/// Whether a new request is accepted: rejected iff a request is pending
/// (`request_timestamp > 0`, `settled_timestamp == 0`) and less than
/// `min_interval` ledger-clock seconds old.
pub open spec fn guard_accepts(
    request_timestamp: i64,
    settled_timestamp: i64,
    now: i64,
    min_interval: i64,
) -> bool {
    !(request_timestamp > 0 && settled_timestamp == 0 && now - request_timestamp < min_interval)
}

/// Evaluates the timeout guard.
pub fn check_timeout_guard(
    request_timestamp: i64,
    settled_timestamp: i64,
    now: i64,
    min_interval: i64,
) -> (r: bool)
    requires
        request_timestamp > 0 && settled_timestamp == 0 ==> now - request_timestamp
            >= i64::MIN,
    ensures
        r == guard_accepts(request_timestamp, settled_timestamp, now, min_interval),
{
    if request_timestamp > 0 && settled_timestamp == 0 {
        !(now - request_timestamp < min_interval)
    } else {
        true
    }
}

/// The guard is monotonic in elapsed time: once it accepts at time `t` for
/// a given stored state, it also accepts at any later time `t2` with the
/// same stored state.
pub proof fn lemma_guard_monotonic(
    request_timestamp: i64,
    settled_timestamp: i64,
    t: i64,
    t2: i64,
    min_interval: i64,
)
    requires
        guard_accepts(request_timestamp, settled_timestamp, t, min_interval),
        t <= t2,
    ensures
        guard_accepts(request_timestamp, settled_timestamp, t2, min_interval),
{
}

} // verus!
