//! The decision core of the reconnecting WebSocket handle.
//!
//! The browser socket, its timers and the URL provider live in the glue; the
//! glue reports each thing that happened to a [`WsController`] and carries out
//! the [`WsDirective`] it gets back.

use vstd::prelude::*;
use crate::reconnect::RetryPolicy;

verus! {

/// Connection lifecycle state mirroring `WebSocket.readyState`.
#[derive(Clone, Copy, Debug, PartialEq, Eq, Structural)]
pub enum WebSocketReadyState {
    /// Handshake in progress, also reported while waiting to reconnect.
    Connecting,
    /// Open and ready for I/O.
    Open,
    /// `close()` was called and the closing handshake is in flight.
    Closing,
    /// Connection is fully closed.
    Closed,
}

/// Inbound payload kind.
#[derive(Clone, Debug)]
pub enum WebSocketMessage {
    /// UTF-8 text frame.
    Text(String),
    /// Binary frame as raw bytes.
    Binary(Vec<u8>),
}

/// The state a browser `readyState` code stands for (0 connecting, 1 open,
/// 2 closing, anything else closed).
pub open spec fn ready_state_of(code: u16) -> WebSocketReadyState {
    if code == 0 {
        WebSocketReadyState::Connecting
    } else if code == 1 {
        WebSocketReadyState::Open
    } else if code == 2 {
        WebSocketReadyState::Closing
    } else {
        WebSocketReadyState::Closed
    }
}

/// Maps a live `readyState` code (`None` when no socket is installed) onto
/// [`WebSocketReadyState`].
pub fn ready_state(code: Option<u16>) -> (s: WebSocketReadyState)
    ensures
        s == (match code {
            Some(c) => ready_state_of(c),
            None => WebSocketReadyState::Closed,
        }),
{
    match code {
        Some(0) => WebSocketReadyState::Connecting,
        Some(1) => WebSocketReadyState::Open,
        Some(2) => WebSocketReadyState::Closing,
        _ => WebSocketReadyState::Closed,
    }
}

/// What the glue must do after an event.
#[derive(Clone, Copy, Debug, PartialEq, Eq, Structural)]
pub struct WsDirective {
    /// New value for the reactive state signal, if it changes.
    pub state: Option<WebSocketReadyState>,
    /// Clear the scheduled reconnect timer.
    pub cancel_retry: bool,
    /// Clear the connect watchdog timer.
    pub cancel_watchdog: bool,
    /// Drop the current socket (detaching its listeners before closing it).
    pub drop_socket: bool,
    /// Start a connect attempt tagged with this generation: await the URL
    /// provider, and arm the watchdog when the controller has one.
    pub start_attempt: Option<u32>,
    /// Schedule a reconnect after the backoff delay of this retry index.
    pub schedule_retry: Option<u32>,
}

/// The answer to an awaited URL provider.
#[derive(Clone, Copy, Debug, PartialEq, Eq, Structural)]
pub enum ProviderVerdict {
    /// A newer attempt superseded this one: touch nothing.
    Stale,
    /// The handle was closed meanwhile: stop here.
    Abandoned,
    /// Open the socket (or report a failure through `connection_lost`).
    Proceed,
}

pub open spec fn quiet() -> WsDirective {
    WsDirective {
        state: None,
        cancel_retry: false,
        cancel_watchdog: false,
        drop_socket: false,
        start_attempt: None,
        schedule_retry: None,
    }
}

/// The decision state of one WebSocket handle.
#[derive(Clone, Copy, Debug, PartialEq, Eq, Structural)]
pub struct WsController {
    pub retry: RetryPolicy,
    /// A per-attempt connect timeout is configured.
    pub watchdog_enabled: bool,
    /// Consecutive failed or closed connections since the last open.
    pub failures: u32,
    /// The application asked for a close; nothing reconnects any more.
    pub manual_close: bool,
    /// A connect attempt is awaiting its URL provider.
    pub connecting: bool,
    /// Bumped whenever an attempt is abandoned.
    pub generation: u32,
    /// A reconnect timer is scheduled.
    pub retry_pending: bool,
    /// A connect watchdog timer is armed.
    pub watchdog_armed: bool,
}

/// `u32::wrapping_add(1)`, used for the attempt generation and the failure
/// counter (which can only wrap when attempts are unbounded).
pub open spec fn next_generation(g: u32) -> u32 {
    if g == u32::MAX {
        0
    } else {
        (g + 1) as u32
    }
}

impl WsController {
    /// The initial controller, before the first attempt.
    pub open spec fn initial(retry: RetryPolicy, watchdog_enabled: bool) -> Self {
        WsController {
            retry,
            watchdog_enabled,
            failures: 0,
            manual_close: false,
            connecting: false,
            generation: 0,
            retry_pending: false,
            watchdog_armed: false,
        }
    }

    /// Starting a connect attempt unless one is in flight or the handle is closed.
    pub open spec fn spawn_step(self) -> (Self, WsDirective) {
        if self.connecting || self.manual_close {
            (self, quiet())
        } else {
            (
                WsController { connecting: true, watchdog_armed: self.watchdog_enabled, ..self },
                WsDirective {
                    state: Some(WebSocketReadyState::Connecting),
                    cancel_watchdog: true,
                    start_attempt: Some(self.generation),
                    ..quiet()
                },
            )
        }
    }

    /// A socket closed, failed to open, or its URL provider failed.
    pub open spec fn lost_step(self) -> (Self, WsDirective) {
        let s = WsController { watchdog_armed: false, ..self };
        if self.manual_close || !self.retry.permits(self.failures) {
            (
                s,
                WsDirective {
                    state: Some(WebSocketReadyState::Closed),
                    cancel_watchdog: true,
                    ..quiet()
                },
            )
        } else {
            (
                WsController {
                    failures: next_generation(self.failures),
                    retry_pending: true,
                    ..s
                },
                WsDirective {
                    state: Some(WebSocketReadyState::Connecting),
                    cancel_watchdog: true,
                    schedule_retry: Some(self.failures),
                    ..quiet()
                },
            )
        }
    }

    /// The scheduled reconnect fired.
    pub open spec fn retry_due_step(self) -> (Self, WsDirective) {
        let s = WsController { retry_pending: false, ..self };
        if self.manual_close {
            (s, quiet())
        } else {
            s.spawn_step()
        }
    }

    /// The watchdog of the attempt tagged `generation` fired.
    pub open spec fn watchdog_step(self, generation: u32, socket_open: bool) -> (Self, WsDirective) {
        let s = WsController { watchdog_armed: false, ..self };
        if self.manual_close || self.generation != generation || socket_open {
            (s, quiet())
        } else {
            let abandoned = WsController {
                generation: next_generation(self.generation),
                connecting: false,
                ..s
            };
            let (t, d) = abandoned.lost_step();
            (t, WsDirective { drop_socket: true, ..d })
        }
    }

    /// A page-lifecycle wake-up: `force` for a back/forward-cache restore.
    pub open spec fn revalidate_step(self, force: bool, socket_alive: bool) -> (Self, WsDirective) {
        if self.manual_close || (!force && (socket_alive || self.connecting)) {
            (self, quiet())
        } else {
            let reset = WsController {
                retry_pending: false,
                generation: next_generation(self.generation),
                connecting: false,
                watchdog_armed: false,
                failures: 0,
                ..self
            };
            let (t, d) = reset.spawn_step();
            (t, WsDirective { cancel_retry: true, cancel_watchdog: true, drop_socket: true, ..d })
        }
    }

    /// Whether the page-lifecycle listeners are worth installing.
    pub fn listens_to_lifecycle(&self) -> (b: bool)
        ensures
            b == self.retry.enabled,
    {
        self.retry.enabled
    }

    /// A fresh controller; call [`Self::begin`] to start the first attempt.
    pub fn new(retry: RetryPolicy, watchdog_enabled: bool) -> (c: Self)
        ensures
            c == Self::initial(retry, watchdog_enabled),
    {
        WsController {
            retry,
            watchdog_enabled,
            failures: 0,
            manual_close: false,
            connecting: false,
            generation: 0,
            retry_pending: false,
            watchdog_armed: false,
        }
    }

    /// Kicks off a (re)connect attempt.
    pub fn begin(&mut self) -> (d: WsDirective)
        ensures
            (*final(self), d) == old(self).spawn_step(),
    {
        if self.connecting || self.manual_close {
            return WsDirective {
                state: None,
                cancel_retry: false,
                cancel_watchdog: false,
                drop_socket: false,
                start_attempt: None,
                schedule_retry: None,
            };
        }
        self.connecting = true;
        self.watchdog_armed = self.watchdog_enabled;
        WsDirective {
            state: Some(WebSocketReadyState::Connecting),
            cancel_retry: false,
            cancel_watchdog: true,
            drop_socket: false,
            start_attempt: Some(self.generation),
            schedule_retry: None,
        }
    }

    /// The URL provider of the attempt tagged `generation` resolved.
    pub fn provider_resolved(&mut self, generation: u32) -> (v: ProviderVerdict)
        ensures
            old(self).generation != generation ==> v == ProviderVerdict::Stale && *final(self) == *old(self),
            old(self).generation == generation ==> *final(self) == (WsController { connecting: false, ..*old(self) }),
            old(self).generation == generation && old(self).manual_close ==> v == ProviderVerdict::Abandoned,
            old(self).generation == generation && !old(self).manual_close ==> v == ProviderVerdict::Proceed,
    {
        if self.generation != generation {
            return ProviderVerdict::Stale;
        }
        self.connecting = false;
        if self.manual_close {
            ProviderVerdict::Abandoned
        } else {
            ProviderVerdict::Proceed
        }
    }

    /// A fresh socket was installed and is handshaking.
    pub fn socket_installed(&self) -> (d: WsDirective)
        ensures
            d == (WsDirective { state: Some(WebSocketReadyState::Connecting), ..quiet() }),
    {
        WsDirective {
            state: Some(WebSocketReadyState::Connecting),
            cancel_retry: false,
            cancel_watchdog: false,
            drop_socket: false,
            start_attempt: None,
            schedule_retry: None,
        }
    }

    /// The socket reported `open`: the backoff resets and the watchdog stands down.
    pub fn socket_opened(&mut self) -> (d: WsDirective)
        ensures
            *final(self) == (WsController { failures: 0, watchdog_armed: false, ..*old(self) }),
            d == (WsDirective {
                state: Some(WebSocketReadyState::Open),
                cancel_watchdog: true,
                ..quiet()
            }),
    {
        self.failures = 0;
        self.watchdog_armed = false;
        WsDirective {
            state: Some(WebSocketReadyState::Open),
            cancel_retry: false,
            cancel_watchdog: true,
            drop_socket: false,
            start_attempt: None,
            schedule_retry: None,
        }
    }

    /// The connection is gone: settle as closed or schedule a reconnect.
    pub fn connection_lost(&mut self) -> (d: WsDirective)
        ensures
            (*final(self), d) == old(self).lost_step(),
    {
        self.watchdog_armed = false;
        if self.manual_close || !self.retry.should_retry(self.failures) {
            return WsDirective {
                state: Some(WebSocketReadyState::Closed),
                cancel_retry: false,
                cancel_watchdog: true,
                drop_socket: false,
                start_attempt: None,
                schedule_retry: None,
            };
        }
        let index = self.failures;
        self.failures = self.failures.wrapping_add(1);
        self.retry_pending = true;
        WsDirective {
            state: Some(WebSocketReadyState::Connecting),
            cancel_retry: false,
            cancel_watchdog: true,
            drop_socket: false,
            start_attempt: None,
            schedule_retry: Some(index),
        }
    }

    /// The scheduled reconnect fired.
    pub fn retry_due(&mut self) -> (d: WsDirective)
        ensures
            (*final(self), d) == old(self).retry_due_step(),
    {
        self.retry_pending = false;
        if self.manual_close {
            return WsDirective {
                state: None,
                cancel_retry: false,
                cancel_watchdog: false,
                drop_socket: false,
                start_attempt: None,
                schedule_retry: None,
            };
        }
        self.begin()
    }

    /// The watchdog of the attempt tagged `generation` fired; `socket_open`
    /// says whether the current socket reports `OPEN`.
    pub fn watchdog_fired(&mut self, generation: u32, socket_open: bool) -> (d: WsDirective)
        ensures
            (*final(self), d) == old(self).watchdog_step(generation, socket_open),
    {
        self.watchdog_armed = false;
        if self.manual_close || self.generation != generation || socket_open {
            return WsDirective {
                state: None,
                cancel_retry: false,
                cancel_watchdog: false,
                drop_socket: false,
                start_attempt: None,
                schedule_retry: None,
            };
        }
        self.generation = self.generation.wrapping_add(1);
        self.connecting = false;
        let d = self.connection_lost();
        WsDirective { drop_socket: true, ..d }
    }

    /// Recovers a possibly stale connection after a page-lifecycle wake-up.
    /// `force` marks a back/forward-cache restore; `socket_alive` says whether
    /// the current socket is `OPEN` or `CONNECTING`.
    pub fn revalidate(&mut self, force: bool, socket_alive: bool) -> (d: WsDirective)
        ensures
            (*final(self), d) == old(self).revalidate_step(force, socket_alive),
    {
        if self.manual_close {
            return WsDirective {
                state: None,
                cancel_retry: false,
                cancel_watchdog: false,
                drop_socket: false,
                start_attempt: None,
                schedule_retry: None,
            };
        }
        if !force && (socket_alive || self.connecting) {
            return WsDirective {
                state: None,
                cancel_retry: false,
                cancel_watchdog: false,
                drop_socket: false,
                start_attempt: None,
                schedule_retry: None,
            };
        }
        self.retry_pending = false;
        self.generation = self.generation.wrapping_add(1);
        self.connecting = false;
        self.watchdog_armed = false;
        self.failures = 0;
        let d = self.begin();
        WsDirective { cancel_retry: true, cancel_watchdog: true, drop_socket: true, ..d }
    }

    /// The application asked for a close: reconnection is suppressed for good
    /// and both timers are cancelled.
    pub fn close_requested(&mut self) -> (d: WsDirective)
        ensures
            *final(self) == (WsController {
                manual_close: true,
                retry_pending: false,
                watchdog_armed: false,
                ..*old(self)
            }),
            d == (WsDirective { cancel_retry: true, cancel_watchdog: true, ..quiet() }),
    {
        self.manual_close = true;
        self.retry_pending = false;
        self.watchdog_armed = false;
        WsDirective {
            state: None,
            cancel_retry: true,
            cancel_watchdog: true,
            drop_socket: false,
            start_attempt: None,
            schedule_retry: None,
        }
    }
}


/// A close requested by the application is final: whatever happens next, no
/// event starts an attempt or schedules a reconnect, and the close sticks.
pub proof fn law_manual_close_is_final(c: WsController, generation: u32, socket_open: bool, force: bool, socket_alive: bool)
    requires
        c.manual_close,
    ensures
        c.spawn_step().0.manual_close && c.spawn_step().1.start_attempt is None,
        c.lost_step().0.manual_close && c.lost_step().1.schedule_retry is None,
        c.lost_step().1.state == Some(WebSocketReadyState::Closed),
        c.retry_due_step().0.manual_close && c.retry_due_step().1.start_attempt is None,
        c.watchdog_step(generation, socket_open).0.manual_close,
        c.watchdog_step(generation, socket_open).1.start_attempt is None,
        c.watchdog_step(generation, socket_open).1.schedule_retry is None,
        c.revalidate_step(force, socket_alive).0.manual_close,
        c.revalidate_step(force, socket_alive).1.start_attempt is None,
        c.revalidate_step(force, socket_alive).1.schedule_retry is None,
{
}

/// With reconnection disabled a lost connection settles as closed and never
/// schedules a reconnect.
pub proof fn law_disabled_never_retries(c: WsController)
    requires
        !c.retry.enabled,
    ensures
        c.lost_step().1.schedule_retry is None,
        c.lost_step().1.state == Some(WebSocketReadyState::Closed),
{
}

/// The attempt cap holds: with `max_attempts == Some(m)` the failure count
/// never exceeds `m`, a reconnect is scheduled only while fewer than `m` were
/// made, and the `m`-th consecutive loss settles as closed.
pub proof fn law_attempt_cap(c: WsController, m: u32, generation: u32, socket_open: bool, force: bool, socket_alive: bool)
    requires
        c.retry.max_attempts == Some(m),
        c.failures <= m,
    ensures
        c.lost_step().0.failures <= m,
        c.lost_step().1.schedule_retry is Some ==> c.failures < m,
        c.failures == m ==> c.lost_step().1.schedule_retry is None
            && c.lost_step().1.state == Some(WebSocketReadyState::Closed),
        c.spawn_step().0.failures <= m,
        c.retry_due_step().0.failures <= m,
        c.watchdog_step(generation, socket_open).0.failures <= m,
        c.revalidate_step(force, socket_alive).0.failures <= m,
{
}

/// A reconnect is scheduled with the retry index equal to the number of
/// failures so far, so the backoff grows by one step per consecutive loss.
pub proof fn law_backoff_index_grows(c: WsController)
    requires
        !c.manual_close,
        c.retry.permits(c.failures),
        c.failures < u32::MAX,
    ensures
        c.lost_step().1.schedule_retry == Some(c.failures),
        c.lost_step().0.failures == c.failures + 1,
        c.lost_step().1.state == Some(WebSocketReadyState::Connecting),
{
}

/// Opening resets the backoff: the first loss after an open is retried with
/// index 0 whenever the policy permits a first attempt.
pub proof fn law_open_resets_backoff(c: WsController)
    requires
        !c.manual_close,
        c.retry.permits(0),
    ensures
        ({
            let opened = WsController { failures: 0, watchdog_armed: false, ..c };
            opened.lost_step().1.schedule_retry == Some(0u32)
        }),
{
}

/// At most one attempt is in flight: a second start before the first one's
/// provider resolved does nothing.
pub proof fn law_single_flight(c: WsController)
    ensures
        c.spawn_step().0.spawn_step().1.start_attempt is None,
        c.spawn_step().0.spawn_step().0 == c.spawn_step().0,
{
}

/// An attempt that a watchdog abandoned, or that a forced revalidation
/// superseded, can never install its socket: the generation it carries no
/// longer matches.
pub proof fn law_superseded_attempt_is_stale(c: WsController, generation: u32, force: bool, socket_alive: bool)
    ensures
        (!c.manual_close && c.generation == generation)
            ==> (c.watchdog_step(generation, false).0.generation != c.generation),
        (!c.manual_close && force) ==> c.revalidate_step(force, socket_alive).0.generation != c.generation,
{
}

/// A back/forward-cache restore rebuilds the connection unconditionally: the
/// scheduled retry is cancelled, the stale socket dropped, the backoff reset
/// and a fresh attempt started.
pub proof fn law_forced_revalidation_restarts(c: WsController, socket_alive: bool)
    requires
        !c.manual_close,
    ensures
        ({
            let (t, d) = c.revalidate_step(true, socket_alive);
            &&& d.cancel_retry && d.drop_socket
            &&& d.start_attempt == Some(t.generation)
            &&& t.failures == 0
            &&& t.connecting
            &&& !t.retry_pending
            &&& d.state == Some(WebSocketReadyState::Connecting)
        }),
{
}

/// An `online` / visible wake leaves a healthy or handshaking socket alone.
pub proof fn law_healthy_socket_untouched(c: WsController)
    ensures
        c.revalidate_step(false, true) == (c, quiet()),
{
}


/// An `online` / visible wake replaces a socket that died without telling:
/// when nothing is in flight and the application did not close the handle,
/// the dead socket is dropped, any scheduled retry cancelled, the backoff
/// reset, and a fresh attempt started at once with a new generation. An
/// attempt already in flight is left to finish.
pub proof fn law_dead_socket_is_replaced(c: WsController)
    requires
        !c.manual_close,
    ensures
        !c.connecting ==> ({
            let (t, d) = c.revalidate_step(false, false);
            &&& d.start_attempt == Some(next_generation(c.generation))
            &&& t.generation == next_generation(c.generation)
            &&& d.drop_socket && d.cancel_retry
            &&& t.failures == 0
            &&& t.connecting
            &&& !t.retry_pending
            &&& d.state == Some(WebSocketReadyState::Connecting)
        }),
        c.connecting ==> c.revalidate_step(false, false) == (c, quiet()),
{
}

} // verus!
