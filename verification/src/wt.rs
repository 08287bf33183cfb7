//! The decision core of the WebTransport session supervisor.
//!
//! The glue runs the asynchronous loop (URL provider, session construction,
//! the `ready` / `closed` promises raced against a page-lifecycle wake, the
//! backoff sleep) and asks a [`WtSupervisor`] what to do at each point.

use vstd::prelude::*;
use crate::reconnect::RetryPolicy;
use crate::ws::next_generation;

verus! {

/// Lifecycle state of a WebTransport handle.
#[derive(Clone, Copy, Debug, PartialEq, Eq, Structural)]
pub enum WebTransportState {
    /// `ready` has not resolved yet, also reported while waiting to reconnect.
    Connecting,
    /// `ready` resolved: datagrams and streams may be used.
    Open,
    /// Session closed gracefully.
    Closed,
    /// `ready` rejected, or `closed` resolved with an error.
    Failed,
}

/// Where the supervisor loop goes next.
#[derive(Clone, Copy, Debug, PartialEq, Eq, Structural)]
pub enum WtNext {
    /// Leave the loop for good.
    Stop,
    /// Go round again: fetch a URL and build a fresh session.
    Restart,
    /// Sleep the backoff delay of this retry index (pre-emptible by a wake),
    /// then report [`WtSupervisor::backoff_finished`].
    Wait(u32),
    /// Carry on with the current step.
    Continue,
}

/// One supervisor decision.
#[derive(Clone, Copy, Debug, PartialEq, Eq, Structural)]
pub struct WtDecision {
    pub next: WtNext,
    /// New lifecycle state, if it changes.
    pub state: Option<WebTransportState>,
    /// Close the current session first.
    pub close_transport: bool,
    /// Start the datagram reader on the live session.
    pub ensure_reader: bool,
}

pub open spec fn decision(next: WtNext, state: Option<WebTransportState>) -> WtDecision {
    WtDecision { next, state, close_transport: false, ensure_reader: false }
}

/// The decision state of one WebTransport handle.
#[derive(Clone, Copy, Debug, PartialEq, Eq, Structural)]
pub struct WtSupervisor {
    pub retry: RetryPolicy,
    /// Consecutive failures since the last open.
    pub failures: u32,
    /// The application asked for a close.
    pub manual_close: bool,
    /// Synchronous mirror of the reactive state.
    pub state: WebTransportState,
}

impl WtSupervisor {
    pub open spec fn initial(retry: RetryPolicy) -> Self {
        WtSupervisor { retry, failures: 0, manual_close: false, state: WebTransportState::Connecting }
    }

    /// Entering the backoff: wait, or stop when the policy forbids another attempt.
    pub open spec fn backoff_step(self) -> (Self, WtDecision) {
        if !self.manual_close && self.retry.permits(self.failures) {
            (
                WtSupervisor { failures: next_generation(self.failures), ..self },
                decision(WtNext::Wait(self.failures), None),
            )
        } else {
            (self, decision(WtNext::Stop, None))
        }
    }

    /// A failure that sets `Failed` and then backs off.
    pub open spec fn fail_step(self) -> (Self, WtDecision) {
        let failed = WtSupervisor { state: WebTransportState::Failed, ..self };
        let (t, d) = failed.backoff_step();
        (t, WtDecision { state: Some(WebTransportState::Failed), ..d })
    }

    /// A lifecycle wake pre-empted the `ready` or `closed` wait.
    pub open spec fn woken_step(self) -> (Self, WtDecision) {
        if !self.manual_close {
            (
                WtSupervisor { failures: 0, state: WebTransportState::Connecting, ..self },
                WtDecision {
                    next: WtNext::Restart,
                    state: Some(WebTransportState::Connecting),
                    close_transport: true,
                    ensure_reader: false,
                },
            )
        } else {
            (
                WtSupervisor { state: WebTransportState::Closed, ..self },
                decision(WtNext::Stop, Some(WebTransportState::Closed)),
            )
        }
    }

    /// The `closed` promise settled (`ok` for a graceful close).
    pub open spec fn closed_step(self, ok: bool) -> (Self, WtDecision) {
        if self.manual_close || ok {
            (
                WtSupervisor { state: WebTransportState::Closed, ..self },
                decision(WtNext::Stop, Some(WebTransportState::Closed)),
            )
        } else {
            self.fail_step()
        }
    }

    /// A fresh supervisor.
    pub fn new(retry: RetryPolicy) -> (s: Self)
        ensures
            s == Self::initial(retry),
    {
        WtSupervisor { retry, failures: 0, manual_close: false, state: WebTransportState::Connecting }
    }

    /// Whether the page-lifecycle listeners are worth installing.
    pub fn listens_to_lifecycle(&self) -> (b: bool)
        ensures
            b == self.retry.enabled,
    {
        self.retry.enabled
    }

    /// Top of the loop, before awaiting the URL provider.
    pub fn attempt_begins(&mut self) -> (d: WtDecision)
        ensures
            old(self).manual_close ==> *final(self) == *old(self) && d == decision(WtNext::Stop, None),
            !old(self).manual_close ==> *final(self) == (WtSupervisor { state: WebTransportState::Connecting, ..*old(self) })
                && d == decision(WtNext::Continue, Some(WebTransportState::Connecting)),
    {
        if self.manual_close {
            return WtDecision { next: WtNext::Stop, state: None, close_transport: false, ensure_reader: false };
        }
        self.state = WebTransportState::Connecting;
        WtDecision {
            next: WtNext::Continue,
            state: Some(WebTransportState::Connecting),
            close_transport: false,
            ensure_reader: false,
        }
    }

    /// Before building the session from the provided URL.
    pub fn may_build(&self) -> (b: bool)
        ensures
            b == !self.manual_close,
    {
        !self.manual_close
    }

    /// The URL provider failed.
    pub fn provider_failed(&mut self) -> (d: WtDecision)
        ensures
            (*final(self), d) == old(self).backoff_step(),
    {
        self.backoff()
    }

    /// Constructing the session failed.
    pub fn build_failed(&mut self) -> (d: WtDecision)
        ensures
            (*final(self), d) == old(self).fail_step(),
    {
        self.state = WebTransportState::Failed;
        let d = self.backoff();
        WtDecision { state: Some(WebTransportState::Failed), ..d }
    }

    /// The `ready` or `closed` wait was pre-empted by a lifecycle wake.
    pub fn woken(&mut self) -> (d: WtDecision)
        ensures
            (*final(self), d) == old(self).woken_step(),
    {
        if !self.manual_close {
            self.failures = 0;
            self.state = WebTransportState::Connecting;
            WtDecision {
                next: WtNext::Restart,
                state: Some(WebTransportState::Connecting),
                close_transport: true,
                ensure_reader: false,
            }
        } else {
            self.state = WebTransportState::Closed;
            WtDecision {
                next: WtNext::Stop,
                state: Some(WebTransportState::Closed),
                close_transport: false,
                ensure_reader: false,
            }
        }
    }

    /// `ready` rejected or timed out.
    pub fn ready_failed(&mut self) -> (d: WtDecision)
        ensures
            old(self).manual_close ==> *final(self) == *old(self) && d == decision(WtNext::Stop, None),
            !old(self).manual_close ==> (*final(self), d) == old(self).fail_step(),
    {
        if self.manual_close {
            return WtDecision { next: WtNext::Stop, state: None, close_transport: false, ensure_reader: false };
        }
        self.build_failed()
    }

    /// `ready` resolved: the session is live.
    pub fn ready_succeeded(&mut self) -> (d: WtDecision)
        ensures
            old(self).manual_close ==> *final(self) == *old(self) && d == decision(WtNext::Stop, None),
            !old(self).manual_close ==> *final(self) == (WtSupervisor {
                failures: 0,
                state: WebTransportState::Open,
                ..*old(self)
            }) && d == (WtDecision {
                next: WtNext::Continue,
                state: Some(WebTransportState::Open),
                close_transport: false,
                ensure_reader: true,
            }),
    {
        if self.manual_close {
            return WtDecision { next: WtNext::Stop, state: None, close_transport: false, ensure_reader: false };
        }
        self.failures = 0;
        self.state = WebTransportState::Open;
        WtDecision {
            next: WtNext::Continue,
            state: Some(WebTransportState::Open),
            close_transport: false,
            ensure_reader: true,
        }
    }

    /// The `closed` promise settled; `ok` for a graceful close.
    pub fn closed(&mut self, ok: bool) -> (d: WtDecision)
        ensures
            (*final(self), d) == old(self).closed_step(ok),
    {
        if self.manual_close || ok {
            self.state = WebTransportState::Closed;
            return WtDecision {
                next: WtNext::Stop,
                state: Some(WebTransportState::Closed),
                close_transport: false,
                ensure_reader: false,
            };
        }
        self.build_failed()
    }

    /// Enter the backoff wait, or stop.
    pub fn backoff(&mut self) -> (d: WtDecision)
        ensures
            (*final(self), d) == old(self).backoff_step(),
    {
        if !self.manual_close && self.retry.should_retry(self.failures) {
            let index = self.failures;
            self.failures = self.failures.wrapping_add(1);
            WtDecision { next: WtNext::Wait(index), state: None, close_transport: false, ensure_reader: false }
        } else {
            WtDecision { next: WtNext::Stop, state: None, close_transport: false, ensure_reader: false }
        }
    }

    /// The backoff wait ended; `woken` when a lifecycle wake cut it short,
    /// which also resets the backoff.
    pub fn backoff_finished(&mut self, woken: bool) -> (d: WtDecision)
        ensures
            final(self).failures == (if woken { 0 } else { old(self).failures }),
            final(self).manual_close == old(self).manual_close,
            final(self).state == old(self).state,
            final(self).retry == old(self).retry,
            d == decision(if old(self).manual_close { WtNext::Stop } else { WtNext::Restart }, None),
    {
        if woken {
            self.failures = 0;
        }
        if self.manual_close {
            WtDecision { next: WtNext::Stop, state: None, close_transport: false, ensure_reader: false }
        } else {
            WtDecision { next: WtNext::Restart, state: None, close_transport: false, ensure_reader: false }
        }
    }

    /// An `online` or visibility wake: wake the supervisor only when the
    /// session looks dead.
    pub fn wake_if_dead(&self) -> (b: bool)
        ensures
            b == (!self.manual_close && self.state != WebTransportState::Open
                && self.state != WebTransportState::Connecting),
    {
        if self.manual_close {
            return false;
        }
        match self.state {
            WebTransportState::Open | WebTransportState::Connecting => false,
            _ => true,
        }
    }

    /// A `pageshow`: a back/forward-cache restore (`persisted`) always wakes.
    pub fn wake_on_pageshow(&self, persisted: bool) -> (b: bool)
        ensures
            b == (persisted && !self.manual_close),
    {
        persisted && !self.manual_close
    }

    /// The application closed the session: reconnection is suppressed.
    pub fn close_requested(&mut self)
        ensures
            *final(self) == (WtSupervisor { manual_close: true, ..*old(self) }),
    {
        self.manual_close = true;
    }
}

/// The datagram reader registration of a handle.
#[derive(Clone, Copy, Debug, PartialEq, Eq, Structural)]
pub struct DatagramReader {
    /// A sink was registered through `datagram_signal`.
    pub sink_registered: bool,
    /// A reader task is pumping the current session.
    pub running: bool,
}

impl DatagramReader {
    pub fn new() -> (r: Self)
        ensures
            !r.sink_registered && !r.running,
    {
        DatagramReader { sink_registered: false, running: false }
    }

    /// Registers the sink; `Err(())` when one is registered already. On success
    /// says whether a reader must start right away (the session is open).
    pub fn register(&mut self, state: WebTransportState) -> (r: Result<bool, ()>)
        ensures
            old(self).sink_registered ==> r is Err && *final(self) == *old(self),
            !old(self).sink_registered ==> final(self).sink_registered
                && r == Ok::<bool, ()>(state == WebTransportState::Open && !old(self).running)
                && final(self).running == (old(self).running || state == WebTransportState::Open),
    {
        if self.sink_registered {
            return Err(());
        }
        self.sink_registered = true;
        if state == WebTransportState::Open {
            Ok(self.ensure())
        } else {
            Ok(false)
        }
    }

    /// Whether to start a reader: a sink is registered and none runs yet.
    pub fn ensure(&mut self) -> (start: bool)
        ensures
            start == (old(self).sink_registered && !old(self).running),
            final(self).sink_registered == old(self).sink_registered,
            final(self).running == (old(self).running || old(self).sink_registered),
    {
        if self.running || !self.sink_registered {
            return false;
        }
        self.running = true;
        true
    }

    /// The reader stopped with its session.
    pub fn finished(&mut self)
        ensures
            *final(self) == (DatagramReader { running: false, ..*old(self) }),
    {
        self.running = false;
    }
}

/// A close requested by the application is final: no decision restarts the
/// loop or waits for another attempt afterwards.
pub proof fn law_wt_manual_close_is_final(s: WtSupervisor, ok: bool)
    requires
        s.manual_close,
    ensures
        s.backoff_step().1.next == WtNext::Stop,
        s.fail_step().1.next == WtNext::Stop,
        s.woken_step().1.next == WtNext::Stop,
        s.closed_step(ok).1.next == WtNext::Stop,
        s.closed_step(ok).0.state == WebTransportState::Closed,
{
}

/// A graceful close by either peer is final and never reconnects.
pub proof fn law_graceful_close_is_final(s: WtSupervisor)
    ensures
        s.closed_step(true).1 == decision(WtNext::Stop, Some(WebTransportState::Closed)),
{
}

/// A lifecycle wake reconnects at once with the backoff reset, where a peer's
/// graceful close would have been final.
pub proof fn law_wake_restarts_immediately(s: WtSupervisor)
    requires
        !s.manual_close,
    ensures
        s.woken_step().1.next == WtNext::Restart,
        s.woken_step().1.close_transport,
        s.woken_step().0.failures == 0,
        s.woken_step().0.state == WebTransportState::Connecting,
{
}

/// The attempt cap: with `max_attempts == Some(m)` the supervisor waits for a
/// retry only while fewer than `m` failures were counted, and never counts
/// more than `m`.
pub proof fn law_wt_attempt_cap(s: WtSupervisor, m: u32, ok: bool)
    requires
        s.retry.max_attempts == Some(m),
        s.failures <= m,
    ensures
        s.backoff_step().0.failures <= m,
        s.backoff_step().1.next is Wait ==> s.failures < m,
        s.failures == m ==> s.backoff_step().1.next == WtNext::Stop,
        s.fail_step().0.failures <= m,
        s.closed_step(ok).0.failures <= m,
        s.woken_step().0.failures <= m,
{
}

/// An error close enters the backoff with `Failed` reported, and a disabled
/// policy then stops.
pub proof fn law_error_close_backs_off(s: WtSupervisor)
    requires
        !s.manual_close,
    ensures
        s.closed_step(false).1.state == Some(WebTransportState::Failed),
        !s.retry.enabled ==> s.closed_step(false).1.next == WtNext::Stop,
        s.retry.permits(s.failures) ==> s.closed_step(false).1.next == WtNext::Wait(s.failures),
{
}

} // verus!
