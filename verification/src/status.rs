//! Status dots: the colours and ping of each state, and the sync indicator's
//! state and title from the connection and the pending count.

use vstd::prelude::*;
use crate::text::{cn, cn_spec, views, decimal, push_decimal};

verus! {

#[derive(Clone, Copy, Debug, PartialEq, Eq, Structural)]
pub enum StatusState {
    Active,
    Down,
    Fixing,
    Idle,
}

impl Default for StatusState {
    fn default() -> (s: Self)
        ensures
            s == StatusState::Idle,
    {
        StatusState::Idle
    }
}

pub open spec fn dot_spec(s: StatusState) -> Seq<char> {
    match s {
        StatusState::Active => "bg-green-500"@,
        StatusState::Down => "bg-red-500"@,
        StatusState::Fixing => "bg-yellow-500"@,
        StatusState::Idle => "bg-slate-700"@,
    }
}

pub open spec fn ping_spec(s: StatusState) -> Seq<char> {
    match s {
        StatusState::Active => "bg-green-300"@,
        StatusState::Down => "bg-red-300"@,
        StatusState::Fixing => "bg-yellow-300"@,
        StatusState::Idle => "bg-slate-400"@,
    }
}

impl StatusState {
    /// The dot's colour.
    pub fn dot(&self) -> (c: &'static str)
        ensures
            c@ == dot_spec(*self),
    {
        match self {
            StatusState::Active => "bg-green-500",
            StatusState::Down => "bg-red-500",
            StatusState::Fixing => "bg-yellow-500",
            StatusState::Idle => "bg-slate-700",
        }
    }

    /// The ping halo's colour.
    pub fn ping(&self) -> (c: &'static str)
        ensures
            c@ == ping_spec(*self),
    {
        match self {
            StatusState::Active => "bg-green-300",
            StatusState::Down => "bg-red-300",
            StatusState::Fixing => "bg-yellow-300",
            StatusState::Idle => "bg-slate-400",
        }
    }

    /// Every state but idle pings.
    pub fn animated(&self) -> (b: bool)
        ensures
            b == (*self != StatusState::Idle),
    {
        !matches!(self, StatusState::Idle)
    }
}

#[derive(Clone, Copy, Debug, PartialEq, Eq, Structural)]
pub enum StatusIndicatorSize {
    Sm,
    Md,
    Lg,
}

impl Default for StatusIndicatorSize {
    fn default() -> (s: Self)
        ensures
            s == StatusIndicatorSize::Md,
    {
        StatusIndicatorSize::Md
    }
}

pub open spec fn size_spec(s: StatusIndicatorSize) -> Seq<char> {
    match s {
        StatusIndicatorSize::Sm => "h-2 w-2"@,
        StatusIndicatorSize::Md => "h-3 w-3"@,
        StatusIndicatorSize::Lg => "h-4 w-4"@,
    }
}

impl StatusIndicatorSize {
    pub fn class(&self) -> (c: &'static str)
        ensures
            c@ == size_spec(*self),
    {
        match self {
            StatusIndicatorSize::Sm => "h-2 w-2",
            StatusIndicatorSize::Md => "h-3 w-3",
            StatusIndicatorSize::Lg => "h-4 w-4",
        }
    }
}

/// The dot's classes.
pub fn dot_class(size: StatusIndicatorSize, state: StatusState) -> (r: String)
    ensures
        r@ == cn_spec(seq!["relative inline-flex rounded-full"@, size_spec(size), dot_spec(state)]),
{
    let parts = ["relative inline-flex rounded-full", size.class(), state.dot()];
    let r = cn(&parts);
    proof {
        assert(views(parts@) =~= seq!["relative inline-flex rounded-full"@, size_spec(size), dot_spec(state)]);
    }
    r
}

/// The ping halo's classes; there is no halo for an idle state.
pub fn ping_class(size: StatusIndicatorSize, state: StatusState) -> (r: Option<String>)
    ensures
        state == StatusState::Idle ==> r is None,
        state != StatusState::Idle ==> (r matches Some(c) && c@ == cn_spec(seq![
            "absolute inline-flex rounded-full opacity-75 animate-ping"@, size_spec(size), ping_spec(state),
        ])),
{
    if !state.animated() {
        return None;
    }
    let parts = ["absolute inline-flex rounded-full opacity-75 animate-ping", size.class(), state.ping()];
    let r = cn(&parts);
    proof {
        assert(views(parts@) =~= seq![
            "absolute inline-flex rounded-full opacity-75 animate-ping"@, size_spec(size), ping_spec(state),
        ]);
    }
    Some(r)
}

/// The state a sync indicator shows: down when disconnected, fixing while
/// changes are pending, active once everything is synced.
pub open spec fn sync_state_spec(connected: bool, pending: nat) -> StatusState {
    if !connected {
        StatusState::Down
    } else if pending > 0 {
        StatusState::Fixing
    } else {
        StatusState::Active
    }
}

pub fn sync_state(connected: bool, pending: usize) -> (s: StatusState)
    ensures
        s == sync_state_spec(connected, pending as nat),
{
    if !connected {
        StatusState::Down
    } else if pending > 0 {
        StatusState::Fixing
    } else {
        StatusState::Active
    }
}

/// The texts of a sync indicator's tooltip.
#[derive(Clone, Debug)]
pub struct SyncLabels {
    pub disconnected: String,
    pub synced: String,
    /// Followed by a space and the number of pending changes.
    pub syncing: String,
}

impl Default for SyncLabels {
    fn default() -> (l: Self)
        ensures
            l.disconnected@ == "No connection"@,
            l.synced@ == "Everything is synced"@,
            l.syncing@ == "Syncing… remaining:"@,
    {
        SyncLabels {
            disconnected: String::from_str("No connection"),
            synced: String::from_str("Everything is synced"),
            syncing: String::from_str("Syncing… remaining:"),
        }
    }
}

pub open spec fn sync_title_spec(labels: SyncLabels, connected: bool, pending: nat) -> Seq<char> {
    if !connected {
        labels.disconnected@
    } else if pending == 0 {
        labels.synced@
    } else {
        labels.syncing@ + seq![' '] + decimal(pending)
    }
}

/// The sync indicator's tooltip.
pub fn sync_title(labels: &SyncLabels, connected: bool, pending: usize) -> (t: String)
    ensures
        t@ == sync_title_spec(*labels, connected, pending as nat),
{
    if !connected {
        String::from_str(labels.disconnected.as_str())
    } else if pending == 0 {
        String::from_str(labels.synced.as_str())
    } else {
        let mut t = String::from_str(labels.syncing.as_str());
        crate::text::push_char(&mut t, ' ');
        push_decimal(&mut t, pending as u64);
        proof {
            assert(t@ =~= sync_title_spec(*labels, connected, pending as nat));
        }
        t
    }
}

/// The sync indicator never shows "synced" (active) while disconnected or
/// while anything is still pending.
pub proof fn law_synced_means_nothing_pending(connected: bool, pending: nat)
    ensures
        sync_state_spec(connected, pending) == StatusState::Active <==> (connected && pending == 0),
{
}

} // verus!
