//! Listener acquisition policy: bind with retry.
//!
//! A previous server's listening socket can linger for a short window after
//! release, so binding is retried a bounded number of times with a fixed
//! delay. The socket work itself is performed by the embedding runtime; this
//! module decides, after each attempt, whether to use the listener, sleep and
//! retry, or give up and surface the last error.

use vstd::prelude::*;

verus! {

/// Total number of bind attempts before giving up.
pub const BIND_MAX_ATTEMPTS: u32 = 5;

/// Milliseconds to sleep between consecutive bind attempts.
pub const BIND_RETRY_DELAY_MS: u64 = 200;

/// Listen backlog requested for the bound socket.
pub const LISTEN_BACKLOG: i32 = 128;

/// What to do after one bind attempt has completed.
#[derive(Clone, Copy, Debug, PartialEq, Eq, Structural)]
pub enum BindStep {
    /// The attempt succeeded: use the listener it produced.
    UseListener,
    /// The attempt failed and attempts remain: sleep for the retry delay,
    /// then try again.
    RetryAfterDelay,
    /// The attempt failed and it was the last one: surface its error verbatim.
    GiveUp,
}

/// Decides the next move after bind attempt number `attempt` (counted from
/// zero) out of `max_attempts` has succeeded (`bind_ok`) or failed.
pub fn bind_retry_step(attempt: u32, max_attempts: u32, bind_ok: bool) -> (d: BindStep)
    requires
        attempt < max_attempts,
    ensures
        bind_ok ==> d is UseListener,
        !bind_ok && attempt + 1 < max_attempts ==> d is RetryAfterDelay,
        !bind_ok && attempt + 1 == max_attempts ==> d is GiveUp,
{
    if bind_ok {
        BindStep::UseListener
    } else if attempt + 1 < max_attempts {
        BindStep::RetryAfterDelay
    } else {
        BindStep::GiveUp
    }
}

} // verus!
