//! Tabs: which trigger is active, what a key press does, and the roving
//! focus among the enabled triggers.

use vstd::prelude::*;
use crate::command::str_eq;

verus! {

/// What a key pressed on a tab trigger asks for.
#[derive(Clone, Copy, Debug, PartialEq, Eq, Structural)]
pub enum TabKey {
    /// Space or Enter: select this tab.
    Activate,
    /// ArrowRight.
    Next,
    /// ArrowLeft.
    Previous,
    /// Home.
    First,
    /// End.
    Last,
}

pub open spec fn tab_key_spec(key: Seq<char>, disabled: bool) -> Option<TabKey> {
    if (key == " "@ || key == "Enter"@) && !disabled {
        Some(TabKey::Activate)
    } else if key == "ArrowRight"@ {
        Some(TabKey::Next)
    } else if key == "ArrowLeft"@ {
        Some(TabKey::Previous)
    } else if key == "Home"@ {
        Some(TabKey::First)
    } else if key == "End"@ {
        Some(TabKey::Last)
    } else {
        None
    }
}

/// The action of a key on a trigger; `None` leaves the event alone.
pub fn tab_key(key: &str, disabled: bool) -> (k: Option<TabKey>)
    ensures
        k == tab_key_spec(key@, disabled),
{
    if (str_eq(key, " ") || str_eq(key, "Enter")) && !disabled {
        Some(TabKey::Activate)
    } else if str_eq(key, "ArrowRight") {
        Some(TabKey::Next)
    } else if str_eq(key, "ArrowLeft") {
        Some(TabKey::Previous)
    } else if str_eq(key, "Home") {
        Some(TabKey::First)
    } else if str_eq(key, "End") {
        Some(TabKey::Last)
    } else {
        None
    }
}

/// The enabled trigger that takes the focus (and is clicked), among `len`
/// of them, from the one at `current`: the next and previous wrap around.
pub open spec fn roving_spec(key: TabKey, current: nat, len: nat) -> nat {
    match key {
        TabKey::Next => (current + 1) % len,
        TabKey::Previous => ((current + len - 1) % (len as int)) as nat,
        TabKey::First => 0,
        TabKey::Last => (len - 1) as nat,
        TabKey::Activate => current,
    }
}

pub fn roving_target(key: TabKey, current: u32, len: u32) -> (t: u32)
    requires
        current < len,
    ensures
        t == roving_spec(key, current as nat, len as nat),
        t < len,
{
    match key {
        TabKey::Next => ((current as u64 + 1) % len as u64) as u32,
        TabKey::Previous => ((current as u64 + len as u64 - 1) % len as u64) as u32,
        TabKey::First => 0,
        TabKey::Last => len - 1,
        TabKey::Activate => current,
    }
}

/// The position of the focused trigger among the enabled ones: the first
/// match, or `0` when it is not among them.
pub fn current_position(is_target: &[bool]) -> (i: u32)
    requires
        is_target@.len() <= u32::MAX,
    ensures
        (exists|j: int| 0 <= j < is_target@.len() && is_target@[j]) ==> is_target@[i as int]
            && forall|j: int| 0 <= j < i ==> !is_target@[j],
        !(exists|j: int| 0 <= j < is_target@.len() && is_target@[j]) ==> i == 0,
{
    let mut i: usize = 0;
    while i < is_target.len()
        invariant
            i <= is_target@.len(),
            is_target@.len() <= u32::MAX,
            forall|j: int| 0 <= j < i ==> !is_target@[j],
        decreases is_target@.len() - i,
    {
        if is_target[i] {
            return i as u32;
        }
        i = i + 1;
    }
    0
}

/// A click (or Space / Enter) on a trigger: the tab's value becomes the
/// selected one, unless the trigger is disabled.
pub fn select_tab(selected: &mut String, value: &str, disabled: bool) -> (changed: bool)
    ensures
        changed == !disabled,
        disabled ==> final(selected)@ == old(selected)@,
        !disabled ==> final(selected)@ == value@,
{
    if disabled {
        return false;
    }
    *selected = String::from_str(value);
    true
}

/// Whether the trigger (or panel) of `value` is the active one.
pub fn is_active(selected: &str, value: &str) -> (b: bool)
    ensures
        b == (selected@ == value@),
{
    str_eq(selected, value)
}

/// `tabs-trigger-{value}`: the trigger's id, which labels its panel.
pub fn trigger_id(value: &str) -> (s: String)
    ensures
        s@ == "tabs-trigger-"@ + value@,
{
    let mut s = String::from_str("tabs-trigger-");
    s.append(value);
    s
}

/// `tabs-content-{value}`: the panel's id, which the trigger controls.
pub fn panel_id(value: &str) -> (s: String)
    ensures
        s@ == "tabs-content-"@ + value@,
{
    let mut s = String::from_str("tabs-content-");
    s.append(value);
    s
}

/// Only the active, enabled trigger is in the tab order.
pub fn trigger_tabindex(active: bool, disabled: bool) -> (s: &'static str)
    ensures
        s@ == (if !disabled && active { "0"@ } else { "-1"@ }),
{
    if !disabled && active { "0" } else { "-1" }
}

/// Arrow navigation never leaves the list, and one step forward then one
/// back lands where it started.
pub proof fn law_roving_stays_and_returns(current: nat, len: nat)
    requires
        current < len,
    ensures
        roving_spec(TabKey::Next, current, len) < len,
        roving_spec(TabKey::Previous, current, len) < len,
        roving_spec(TabKey::Previous, roving_spec(TabKey::Next, current, len), len) == current,
        roving_spec(TabKey::Next, roving_spec(TabKey::Previous, current, len), len) == current,
{
    let n = roving_spec(TabKey::Next, current, len);
    let p = roving_spec(TabKey::Previous, current, len);
    if current + 1 < len {
        vstd::arithmetic::div_mod::lemma_small_mod((current + 1) as nat, len);
        assert(n == current + 1);
    } else {
        vstd::arithmetic::div_mod::lemma_mod_self_0(len as int);
        assert(n == 0);
    }
    if current > 0 {
        vstd::arithmetic::div_mod::lemma_mod_add_multiples_vanish((current - 1) as int, len as int);
        vstd::arithmetic::div_mod::lemma_small_mod((current - 1) as nat, len);
        assert(p == current - 1);
    } else {
        vstd::arithmetic::div_mod::lemma_small_mod((len - 1) as nat, len);
        assert(p == len - 1);
    }
    // Previous after Next.
    let pn = roving_spec(TabKey::Previous, n, len);
    if n > 0 {
        vstd::arithmetic::div_mod::lemma_mod_add_multiples_vanish((n - 1) as int, len as int);
        vstd::arithmetic::div_mod::lemma_small_mod((n - 1) as nat, len);
        assert(pn == n - 1);
    } else {
        vstd::arithmetic::div_mod::lemma_small_mod((len - 1) as nat, len);
        assert(pn == len - 1);
    }
    // Next after Previous.
    let np = roving_spec(TabKey::Next, p, len);
    if p + 1 < len {
        vstd::arithmetic::div_mod::lemma_small_mod((p + 1) as nat, len);
        assert(np == p + 1);
    } else {
        vstd::arithmetic::div_mod::lemma_mod_self_0(len as int);
        assert(np == 0);
    }
}

} // verus!
