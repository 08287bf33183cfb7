//! The shared reconnection policy, apart from its backoff factor: whether
//! another attempt is permitted after a number of consecutive failures, and
//! the waits and deadlines, in milliseconds.

use vstd::prelude::*;

verus! {

/// Whether reconnection is on, and how many consecutive attempts it may make
/// (`None`: unbounded). The delay schedule lives with the transport glue.
#[derive(Clone, Copy, Debug, PartialEq, Eq, Structural)]
pub struct RetryPolicy {
    pub enabled: bool,
    pub max_attempts: Option<u32>,
}

impl RetryPolicy {
    /// Another attempt is permitted after `attempts_made` attempts.
    pub open spec fn permits(self, attempts_made: u32) -> bool {
        self.enabled && match self.max_attempts {
            None => true,
            Some(max) => attempts_made < max,
        }
    }

    /// The one-shot default: reconnection off, no attempt cap.
    pub fn disabled() -> (p: Self)
        ensures
            !p.enabled,
            p.max_attempts is None,
    {
        RetryPolicy { enabled: false, max_attempts: None }
    }

    /// Reconnection on, retrying without bound.
    pub fn unbounded() -> (p: Self)
        ensures
            p.enabled,
            p.max_attempts is None,
    {
        RetryPolicy { enabled: true, max_attempts: None }
    }

    /// Whether another attempt is permitted given the number of attempts
    /// already made since the last successful connection.
    pub fn should_retry(&self, attempts_made: u32) -> (b: bool)
        ensures
            b == self.permits(attempts_made),
    {
        self.enabled && match self.max_attempts {
            None => true,
            Some(max) => attempts_made < max,
        }
    }
}

/// The waits of the reconnection policy, in milliseconds.
#[derive(Clone, Copy, Debug, PartialEq, Eq, Structural)]
pub struct ReconnectTimings {
    /// Delay before the first reconnect attempt.
    pub initial_delay_ms: u64,
    /// Upper bound on the backed-off delay between attempts.
    pub max_delay_ms: u64,
    /// How long one attempt may take to open before it is abandoned.
    pub connect_timeout_ms: Option<u64>,
    /// How long a socket that reports itself open has to answer a liveness
    /// probe after the page wakes.
    pub liveness_timeout_ms: Option<u64>,
}

impl ReconnectTimings {
    /// The one-shot default: 500 ms doubling up to 3 s, no watchdog, no probe.
    pub fn one_shot() -> (t: Self)
        ensures
            t == (ReconnectTimings { initial_delay_ms: 500, max_delay_ms: 3000, connect_timeout_ms: None, liveness_timeout_ms: None }),
    {
        ReconnectTimings { initial_delay_ms: 500, max_delay_ms: 3000, connect_timeout_ms: None, liveness_timeout_ms: None }
    }

    /// Reconnecting: the same delays, a 5 s watchdog on each attempt and a
    /// 3 s deadline on the liveness probe.
    pub fn reconnecting() -> (t: Self)
        ensures
            t == (ReconnectTimings { initial_delay_ms: 500, max_delay_ms: 3000, connect_timeout_ms: Some(5000), liveness_timeout_ms: Some(3000) }),
    {
        ReconnectTimings { initial_delay_ms: 500, max_delay_ms: 3000, connect_timeout_ms: Some(5000), liveness_timeout_ms: Some(3000) }
    }

    pub fn with_initial_delay(self, ms: u64) -> (t: Self)
        ensures
            t == (ReconnectTimings { initial_delay_ms: ms, ..self }),
    {
        ReconnectTimings { initial_delay_ms: ms, ..self }
    }

    pub fn with_max_delay(self, ms: u64) -> (t: Self)
        ensures
            t == (ReconnectTimings { max_delay_ms: ms, ..self }),
    {
        ReconnectTimings { max_delay_ms: ms, ..self }
    }

    pub fn with_connect_timeout(self, ms: Option<u64>) -> (t: Self)
        ensures
            t == (ReconnectTimings { connect_timeout_ms: ms, ..self }),
    {
        ReconnectTimings { connect_timeout_ms: ms, ..self }
    }

    pub fn with_liveness_timeout(self, ms: Option<u64>) -> (t: Self)
        ensures
            t == (ReconnectTimings { liveness_timeout_ms: ms, ..self }),
    {
        ReconnectTimings { liveness_timeout_ms: ms, ..self }
    }
}

impl RetryPolicy {
    /// The same policy with an attempt cap (`None` for unlimited).
    pub fn with_max_attempts(self, attempts: Option<u32>) -> (p: Self)
        ensures
            p == (RetryPolicy { enabled: self.enabled, max_attempts: attempts }),
    {
        RetryPolicy { enabled: self.enabled, max_attempts: attempts }
    }
}

} // verus!
