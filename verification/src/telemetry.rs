//! Client telemetry: identity (a random session id, and a user id only in
//! identified mode), the events the monitors and helpers build, where they
//! are sent, once-only spans and impressions.

use vstd::prelude::*;
use crate::text::{hex_fixed, push_hex_fixed};

verus! {

/// Identity mode for collected telemetry.
#[derive(Clone, Copy, Debug, PartialEq, Eq, Structural)]
pub enum TelemetryMode {
    /// Only a random, session-scoped id is attached; `user_id` is never sent.
    Anonymous,
    /// The configured `user_id` (when set) is attached alongside the session id.
    Identified,
}

impl Default for TelemetryMode {
    fn default() -> (m: Self)
        ensures
            m == TelemetryMode::Anonymous,
    {
        TelemetryMode::Anonymous
    }
}

/// What an event reports.
#[derive(Clone, Copy, Debug, PartialEq, Eq, Structural)]
pub enum TelemetryEventKind {
    Click,
    View,
    Hover,
    Focus,
    Submit,
    Custom,
    Log,
    Metric,
    Span,
}

/// Severity of a log event.
#[derive(Clone, Copy, Debug, PartialEq, Eq, Structural)]
pub enum TelemetryLevel {
    Trace,
    Debug,
    Info,
    Warn,
    Error,
}

/// Configuration of a telemetry context.
#[derive(Clone, Debug)]
pub struct TelemetryConfig {
    /// Collection endpoint path, resolved against the backend.
    pub endpoint: String,
    /// Initial identity mode.
    pub mode: TelemetryMode,
    /// Initial user id (only sent in identified mode).
    pub user_id: Option<String>,
    /// Explicit session id; a random one is generated when `None`.
    pub session_id: Option<String>,
}

/// The view of an optional string.
pub open spec fn opt_view(o: Option<String>) -> Option<Seq<char>> {
    match o {
        Some(s) => Some(s@),
        None => None,
    }
}

fn copy_opt(o: &Option<String>) -> (c: Option<String>)
    ensures
        opt_view(c) == opt_view(*o),
{
    match o {
        Some(s) => Some(String::from_str(s.as_str())),
        None => None,
    }
}

impl TelemetryConfig {
    /// An anonymous configuration pointing at `endpoint`.
    pub fn new(endpoint: &str) -> (c: Self)
        ensures
            c.endpoint@ == endpoint@,
            c.mode == TelemetryMode::Anonymous,
            c.user_id is None,
            c.session_id is None,
    {
        TelemetryConfig {
            endpoint: String::from_str(endpoint),
            mode: TelemetryMode::Anonymous,
            user_id: None,
            session_id: None,
        }
    }

    /// Identified mode with the given user id.
    pub fn identified(self, user_id: &str) -> (c: Self)
        ensures
            c.endpoint@ == self.endpoint@,
            c.mode == TelemetryMode::Identified,
            opt_view(c.user_id) == Some(user_id@),
            opt_view(c.session_id) == opt_view(self.session_id),
    {
        TelemetryConfig {
            endpoint: self.endpoint,
            mode: TelemetryMode::Identified,
            user_id: Some(String::from_str(user_id)),
            session_id: self.session_id,
        }
    }

    /// Anonymous mode, dropping any user id.
    pub fn anonymous(self) -> (c: Self)
        ensures
            c.endpoint@ == self.endpoint@,
            c.mode == TelemetryMode::Anonymous,
            c.user_id is None,
            opt_view(c.session_id) == opt_view(self.session_id),
    {
        TelemetryConfig {
            endpoint: self.endpoint,
            mode: TelemetryMode::Anonymous,
            user_id: None,
            session_id: self.session_id,
        }
    }

    /// An explicit session id instead of a random one.
    pub fn with_session_id(self, session_id: &str) -> (c: Self)
        ensures
            c.endpoint@ == self.endpoint@,
            c.mode == self.mode,
            opt_view(c.user_id) == opt_view(self.user_id),
            opt_view(c.session_id) == Some(session_id@),
    {
        TelemetryConfig {
            endpoint: self.endpoint,
            mode: self.mode,
            user_id: self.user_id,
            session_id: Some(String::from_str(session_id)),
        }
    }
}

impl Default for TelemetryConfig {
    /// Anonymous, sending to `/api/telemetry`.
    fn default() -> (c: Self)
        ensures
            c.endpoint@ == "/api/telemetry"@,
            c.mode == TelemetryMode::Anonymous,
            c.user_id is None,
            c.session_id is None,
    {
        TelemetryConfig::new("/api/telemetry")
    }
}

/// `4 × 8` lowercase hexadecimal digits, one group per 32-bit chunk.
pub open spec fn session_id_spec(chunks: Seq<u32>) -> Seq<char> {
    hex_fixed(chunks[0] as nat, 8) + hex_fixed(chunks[1] as nat, 8) + hex_fixed(chunks[2] as nat, 8)
        + hex_fixed(chunks[3] as nat, 8)
}

/// A session id from four random 32-bit chunks.
pub fn session_id_from_chunks(chunks: [u32; 4]) -> (id: String)
    ensures
        id@ == session_id_spec(chunks@),
        id@.len() == 32,
{
    let mut id = String::new();
    push_hex_fixed(&mut id, chunks[0] as u64, 8);
    push_hex_fixed(&mut id, chunks[1] as u64, 8);
    push_hex_fixed(&mut id, chunks[2] as u64, 8);
    push_hex_fixed(&mut id, chunks[3] as u64, 8);
    proof {
        lemma_hex_len(chunks@[0] as nat, 8);
        lemma_hex_len(chunks@[1] as nat, 8);
        lemma_hex_len(chunks@[2] as nat, 8);
        lemma_hex_len(chunks@[3] as nat, 8);
        assert(id@ =~= session_id_spec(chunks@));
    }
    id
}

proof fn lemma_hex_len(n: nat, width: nat)
    ensures
        hex_fixed(n, width).len() == width,
    decreases width,
{
    if width > 0 {
        lemma_hex_len(n / 16, (width - 1) as nat);
    }
}

/// One telemetry event, before it is encoded for the wire.
#[derive(Clone, Debug)]
pub struct TelemetryEvent {
    pub kind: TelemetryEventKind,
    /// Milliseconds since the Unix epoch.
    pub timestamp_ms: u64,
    pub message: Option<String>,
    pub session_id: Option<String>,
    pub user_id: Option<String>,
    /// The page's path, when it could be read.
    pub path: Option<String>,
    pub level: Option<TelemetryLevel>,
    /// A span's length in milliseconds.
    pub duration_ms: Option<u64>,
}

/// The active identity and endpoint.
#[derive(Clone, Debug)]
pub struct TelemetryContext {
    pub endpoint: String,
    pub session_id: String,
    pub user_id: Option<String>,
    pub mode: TelemetryMode,
}

/// The user id an event carries: only in identified mode.
pub open spec fn sent_user_id(mode: TelemetryMode, user_id: Option<Seq<char>>) -> Option<Seq<char>> {
    if mode == TelemetryMode::Identified { user_id } else { None }
}

impl TelemetryContext {
    /// A context from `config`; `generated` is the random session id used
    /// when the configuration names none.
    pub fn from_config(config: TelemetryConfig, generated: String) -> (c: Self)
        ensures
            c.endpoint@ == config.endpoint@,
            c.session_id@ == (match config.session_id { Some(s) => s@, None => generated@ }),
            opt_view(c.user_id) == opt_view(config.user_id),
            c.mode == config.mode,
    {
        let session_id = match config.session_id {
            Some(s) => s,
            None => generated,
        };
        TelemetryContext { endpoint: config.endpoint, session_id, user_id: config.user_id, mode: config.mode }
    }

    /// The session-scoped anonymous identifier.
    pub fn session_id(&self) -> (s: String)
        ensures
            s@ == self.session_id@,
    {
        String::from_str(self.session_id.as_str())
    }

    /// The current identity mode.
    pub fn mode(&self) -> (m: TelemetryMode)
        ensures
            m == self.mode,
    {
        self.mode
    }

    /// Sets (or clears) the user id.
    pub fn set_user_id(&mut self, user_id: Option<String>)
        ensures
            opt_view(final(self).user_id) == opt_view(user_id),
            final(self).mode == old(self).mode,
            final(self).session_id@ == old(self).session_id@,
            final(self).endpoint@ == old(self).endpoint@,
    {
        self.user_id = user_id;
    }

    /// Sets the identity mode.
    pub fn set_mode(&mut self, mode: TelemetryMode)
        ensures
            final(self).mode == mode,
            opt_view(final(self).user_id) == opt_view(old(self).user_id),
            final(self).session_id@ == old(self).session_id@,
            final(self).endpoint@ == old(self).endpoint@,
    {
        self.mode = mode;
    }

    /// An event stamped with the time, the identity and the page's path.
    pub fn build_event(&self, kind: TelemetryEventKind, message: Option<String>, now_ms: u64, path: Option<String>) -> (e: TelemetryEvent)
        ensures
            e.kind == kind,
            e.timestamp_ms == now_ms,
            opt_view(e.message) == opt_view(message),
            opt_view(e.session_id) == Some(self.session_id@),
            opt_view(e.user_id) == sent_user_id(self.mode, opt_view(self.user_id)),
            opt_view(e.path) == opt_view(path),
            e.level is None,
            e.duration_ms is None,
    {
        let user_id = if self.mode == TelemetryMode::Identified { copy_opt(&self.user_id) } else { None };
        TelemetryEvent {
            kind,
            timestamp_ms: now_ms,
            message,
            session_id: Some(String::from_str(self.session_id.as_str())),
            user_id,
            path,
            level: None,
            duration_ms: None,
        }
    }

    /// A log event at `level`.
    pub fn log_event(&self, level: TelemetryLevel, message: &str, now_ms: u64, path: Option<String>) -> (e: TelemetryEvent)
        ensures
            e.kind == TelemetryEventKind::Log,
            e.level == Some(level),
            opt_view(e.message) == Some(message@),
            e.timestamp_ms == now_ms,
            opt_view(e.session_id) == Some(self.session_id@),
            opt_view(e.user_id) == sent_user_id(self.mode, opt_view(self.user_id)),
            opt_view(e.path) == opt_view(path),
    {
        let mut e = self.build_event(TelemetryEventKind::Log, Some(String::from_str(message)), now_ms, path);
        e.level = Some(level);
        e
    }

    /// The path the event goes to before it is resolved against the
    /// backend: the override when given, else the configured endpoint.
    pub fn target(&self, endpoint_override: Option<String>) -> (p: String)
        ensures
            p@ == (match endpoint_override { Some(o) => o@, None => self.endpoint@ }),
    {
        match endpoint_override {
            Some(o) => o,
            None => String::from_str(self.endpoint.as_str()),
        }
    }

    /// Starts a timed span.
    pub fn span(&self, name: &str, now_ms: u64) -> (s: TelemetrySpan)
        ensures
            s.name@ == name@,
            s.start_ms == now_ms,
            !s.finished,
    {
        TelemetrySpan { name: String::from_str(name), start_ms: now_ms, finished: false }
    }
}

/// A running, timed span.
#[derive(Debug)]
pub struct TelemetrySpan {
    pub name: String,
    pub start_ms: u64,
    pub finished: bool,
}

impl TelemetrySpan {
    /// Finishes the span at `now_ms`: the first call yields its event, with
    /// the elapsed time (zero if the clock went back); later calls yield
    /// nothing.
    pub fn finish(&mut self, ctx: &TelemetryContext, now_ms: u64, path: Option<String>) -> (e: Option<TelemetryEvent>)
        ensures
            final(self).finished,
            final(self).name@ == old(self).name@,
            final(self).start_ms == old(self).start_ms,
            old(self).finished ==> e is None,
            !old(self).finished ==> (e matches Some(ev) && {
                &&& ev.kind == TelemetryEventKind::Span
                &&& opt_view(ev.message) == Some(old(self).name@)
                &&& ev.duration_ms == Some(if now_ms >= old(self).start_ms { (now_ms - old(self).start_ms) as u64 } else { 0u64 })
                &&& ev.timestamp_ms == now_ms
                &&& opt_view(ev.session_id) == Some(ctx.session_id@)
                &&& opt_view(ev.user_id) == sent_user_id(ctx.mode, opt_view(ctx.user_id))
                &&& opt_view(ev.path) == opt_view(path)
            }),
    {
        if self.finished {
            return None;
        }
        self.finished = true;
        let duration = now_ms.saturating_sub(self.start_ms);
        let mut event = ctx.build_event(TelemetryEventKind::Span, Some(String::from_str(self.name.as_str())), now_ms, path);
        event.duration_ms = Some(duration);
        Some(event)
    }
}

/// An impression monitor: reports the first time its element is seen, then
/// stops observing.
#[derive(Clone, Copy, Debug)]
pub struct ImpressionGate {
    pub fired: bool,
}

impl ImpressionGate {
    pub fn new() -> (g: Self)
        ensures
            !g.fired,
    {
        ImpressionGate { fired: false }
    }

    /// An observer callback: `true` when a `View` event is to be sent now
    /// (and the observer disconnected).
    pub fn observe(&mut self, any_intersecting: bool) -> (report: bool)
        ensures
            (report, final(self).fired) == gate_step(old(self).fired, any_intersecting),
    {
        if self.fired || !any_intersecting {
            return false;
        }
        self.fired = true;
        true
    }
}

/// In anonymous mode no event carries a user id, whatever id is set.
pub proof fn law_anonymous_never_sends_user_id(user_id: Option<Seq<char>>)
    ensures
        sent_user_id(TelemetryMode::Anonymous, user_id) is None,
        sent_user_id(TelemetryMode::Identified, user_id) == user_id,
{
}

/// One observer callback: whether a `View` event is sent, and whether it has fired since.
pub open spec fn gate_step(fired: bool, seen: bool) -> (bool, bool) {
    (!fired && seen, fired || seen)
}

/// An impression is sent at most once: once it has been sent, no later
/// observer callback sends another, whatever it sees.
pub proof fn law_one_impression(fired: bool, first: bool, later: bool)
    ensures
        gate_step(fired, first).0 ==> !gate_step(gate_step(fired, first).1, later).0,
{
}

} // verus!
