//! Reconnect policy of the connection supervisor: error counting with
//! absolution for long sessions, and thresholded backoff.
use vstd::prelude::*;

verus! {

/// How long to sleep, in seconds, before the next connection attempt,
/// given the number of consecutive failed attempts.
pub open spec fn backoff_secs(errors: u64) -> int {
    if errors <= 3 {
        0
    } else if errors <= 10 {
        1
    } else if errors <= 20 {
        5
    } else {
        10
    }
}

/// The consecutive-error count after a failed attempt: a session that
/// lasted more than thirty seconds absolves the earlier failures, and
/// the count then restarts at one.
pub open spec fn errors_after_failure(errors: u64, session_secs: u64) -> int {
    if session_secs > 30 {
        1
    } else if errors == u64::MAX {
        u64::MAX as int
    } else {
        errors + 1
    }
}

/// The backoff for the given consecutive-error count.
pub fn next_backoff_secs(errors: u64) -> (r: u64)
    ensures
        r == backoff_secs(errors),
{
    if errors <= 3 {
        0
    } else if errors <= 10 {
        1
    } else if errors <= 20 {
        5
    } else {
        10
    }
}

/// Accounts one failed connection attempt that lasted `session_secs`
/// and returns the new consecutive-error count together with the sleep,
/// in seconds, owed before the next attempt.
pub fn after_failure(errors: u64, session_secs: u64) -> (r: (u64, u64))
    ensures
        r.0 == errors_after_failure(errors, session_secs),
        r.1 == backoff_secs(r.0),
{
    let new_errors: u64 = if session_secs > 30 {
        1
    } else if errors == u64::MAX {
        u64::MAX
    } else {
        errors + 1
    };
    (new_errors, next_backoff_secs(new_errors))
}

/// The backoff never shrinks as the consecutive-error count grows.
pub proof fn lemma_backoff_monotone(e1: u64, e2: u64)
    requires
        e1 <= e2,
    ensures
        backoff_secs(e1) <= backoff_secs(e2),
{
}

/// Reconnect monotonicity: as long as no session lasts more than
/// thirty seconds, each failure makes the next backoff at least as
/// long as the one before it.
pub proof fn lemma_reconnect_monotone(errors: u64, session_secs: u64)
    requires
        session_secs <= 30,
    ensures
        backoff_secs(errors_after_failure(errors, session_secs) as u64)
            >= backoff_secs(errors),
{
}

} // verus!
