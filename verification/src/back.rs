//! The stack behind `BackGuard`: open layers, each with a history entry
//! recording its depth, closed one by one by back gestures.
//!
//! The glue owns the `history` calls and the callbacks (keyed by slot id); this
//! module decides which entries are spent and which layers a `popstate` closes.

use vstd::prelude::*;

verus! {

/// One registered layer. `open` is false once the layer went away by other
/// means and only its history entry is left to unwind.
#[derive(Clone, Copy, Debug, PartialEq, Eq, Structural)]
pub struct BackSlot {
    pub id: u64,
    pub open: bool,
    pub escape: bool,
}

/// Open layers, oldest first. The index of a slot plus one is the depth its
/// history entry records.
pub struct BackStack {
    pub listening: bool,
    pub next_id: u64,
    pub slots: Vec<BackSlot>,
}

/// Drops the closed slots at the top of the stack.
pub open spec fn trim_closed(s: Seq<BackSlot>) -> Seq<BackSlot>
    decreases s.len(),
{
    if s.len() > 0 && !s.last().open {
        trim_closed(s.drop_last())
    } else {
        s
    }
}

/// The ids of the open slots above `depth`, topmost first.
pub open spec fn popped_open_ids(s: Seq<BackSlot>, depth: nat) -> Seq<u64>
    decreases s.len(),
{
    if s.len() <= depth {
        Seq::empty()
    } else {
        let rest = popped_open_ids(s.drop_last(), depth);
        if s.last().open {
            seq![s.last().id] + rest
        } else {
            rest
        }
    }
}

/// The first index holding `id`, if any.
pub open spec fn index_of_id(s: Seq<BackSlot>, id: u64) -> Option<int>
    decreases s.len(),
{
    if s.len() == 0 {
        None
    } else {
        match index_of_id(s.drop_last(), id) {
            Some(i) => Some(i),
            None => if s.last().id == id { Some(s.len() - 1) } else { None },
        }
    }
}

/// The stack after the layer `id` closed on its own.
pub open spec fn unregistered(s: Seq<BackSlot>, id: u64) -> Seq<BackSlot> {
    match index_of_id(s, id) {
        None => s,
        Some(i) => trim_closed(s.update(i, BackSlot { open: false, ..s[i] })),
    }
}

proof fn lemma_trim_is_prefix(s: Seq<BackSlot>)
    ensures
        trim_closed(s).len() <= s.len(),
        trim_closed(s) =~= s.take(trim_closed(s).len() as int),
        trim_closed(s).len() == 0 || trim_closed(s).last().open,
    decreases s.len(),
{
    if s.len() > 0 && !s.last().open {
        lemma_trim_is_prefix(s.drop_last());
        let t = trim_closed(s.drop_last());
        assert(s.drop_last().take(t.len() as int) =~= s.take(t.len() as int));
    } else {
        assert(s =~= s.take(s.len() as int));
    }
}

proof fn lemma_index_of_id(s: Seq<BackSlot>, id: u64)
    ensures
        index_of_id(s, id) matches Some(i) ==> 0 <= i < s.len() && s[i].id == id
            && (forall|j: int| 0 <= j < i ==> s[j].id != id),
        index_of_id(s, id) is None ==> forall|j: int| 0 <= j < s.len() ==> s[j].id != id,
    decreases s.len(),
{
    if s.len() > 0 {
        let t = s.drop_last();
        lemma_index_of_id(t, id);
        assert forall|j: int| 0 <= j < t.len() implies t[j] == s[j] by {}
    }
}

impl BackStack {
    pub open spec fn view(&self) -> Seq<BackSlot> {
        self.slots@
    }

    /// Ids grow from the bottom of the stack up and never exceed `next_id`.
    pub open spec fn wf(&self) -> bool {
        &&& forall|i: int, j: int| 0 <= i < j < self.slots@.len() ==> self.slots@[i].id < self.slots@[j].id
        &&& forall|i: int| 0 <= i < self.slots@.len() ==> self.slots@[i].id <= self.next_id
    }

    /// An empty stack with no listeners installed.
    pub fn new() -> (s: Self)
        ensures
            s.wf(),
            s.view() == Seq::<BackSlot>::empty(),
            !s.listening,
            s.next_id == 0,
    {
        BackStack { listening: false, next_id: 0, slots: Vec::new() }
    }

    /// Whether the page listeners must be installed now (the first call only).
    pub fn listen_once(&mut self) -> (first: bool)
        ensures
            first == !old(self).listening,
            final(self).listening,
            final(self).next_id == old(self).next_id,
            final(self).view() == old(self).view(),
    {
        let first = !self.listening;
        self.listening = true;
        first
    }

    /// Adds an open layer. Returns its id and the depth its history entry must
    /// record.
    pub fn register(&mut self, escape: bool) -> (r: (u64, usize))
        requires
            old(self).wf(),
            old(self).next_id < u64::MAX,
            old(self).slots@.len() < usize::MAX,
        ensures
            final(self).wf(),
            r.0 == old(self).next_id + 1,
            final(self).next_id == r.0,
            final(self).view() == old(self).view().push(BackSlot { id: r.0, open: true, escape }),
            r.1 == final(self).view().len(),
            final(self).listening == old(self).listening,
    {
        self.next_id = self.next_id + 1;
        let id = self.next_id;
        self.slots.push(BackSlot { id, open: true, escape });
        (id, self.slots.len())
    }

    /// Drops a layer that closed on its own and returns how many history
    /// entries are now spent (to be unwound with `history.go(-spent)`).
    /// Entries are only unwound from the top: a layer closing under one that
    /// is still open leaves its entry as a dead slot.
    pub fn unregister(&mut self, id: u64) -> (spent: usize)
        requires
            old(self).wf(),
        ensures
            final(self).wf(),
            final(self).view() == unregistered(old(self).view(), id),
            spent == old(self).view().len() - final(self).view().len(),
            final(self).next_id == old(self).next_id,
            final(self).listening == old(self).listening,
    {
        let ghost orig = self.slots@;
        proof {
            lemma_index_of_id(orig, id);
        }
        let mut index: usize = 0;
        let mut found = false;
        while index < self.slots.len()
            invariant_except_break
                !found,
            invariant
                self.slots@ == orig,
                index <= orig.len(),
                forall|j: int| 0 <= j < index ==> orig[j].id != id,
                self.next_id == old(self).next_id,
                self.listening == old(self).listening,
            ensures
                found ==> index < orig.len() && orig[index as int].id == id,
                !found ==> index == orig.len(),
                forall|j: int| 0 <= j < index ==> orig[j].id != id,
                self.slots@ == orig,
                self.next_id == old(self).next_id,
                self.listening == old(self).listening,
            decreases orig.len() - index,
        {
            if self.slots[index].id == id {
                found = true;
                break;
            }
            index = index + 1;
        }
        if !found {
            proof {
                assert(index_of_id(orig, id) is None);
            }
            return 0;
        }
        proof {
            assert(index_of_id(orig, id) == Some(index as int));
        }
        let old_slot = self.slots[index];
        self.slots.set(index, BackSlot { id: old_slot.id, open: false, escape: old_slot.escape });
        let ghost marked = self.slots@;
        proof {
            assert(marked =~= orig.update(index as int, BackSlot { open: false, ..orig[index as int] }));
        }
        let mut spent: usize = 0;
        let n: usize = self.slots.len();
        proof {
            lemma_trim_is_prefix(marked);
            assert(marked.len() == n);
            assert(forall|i: int| 0 <= i < marked.len() ==> marked[i].id == orig[i].id);
        }
        while self.slots.len() > 0 && !self.slots[self.slots.len() - 1].open
            invariant
                trim_closed(self.slots@) == trim_closed(marked),
                self.slots@ =~= marked.take(self.slots@.len() as int),
                self.slots@.len() <= marked.len(),
                spent == marked.len() - self.slots@.len(),
                marked.len() == orig.len(),
                marked.len() <= usize::MAX,
                forall|i: int| 0 <= i < marked.len() ==> marked[i].id == orig[i].id,
                orig == old(self).slots@,
                self.next_id == old(self).next_id,
                self.listening == old(self).listening,
            decreases self.slots@.len(),
        {
            self.slots.pop();
            spent = spent + 1;
        }
        proof {
            assert(trim_closed(self.slots@) == self.slots@);
            assert forall|i: int, j: int| 0 <= i < j < self.slots@.len() implies self.slots@[i].id < self.slots@[j].id by {
                assert(self.slots@[i] == marked[i]);
                assert(self.slots@[j] == marked[j]);
                assert(orig[i].id < orig[j].id);
            }
            assert forall|i: int| 0 <= i < self.slots@.len() implies self.slots@[i].id <= self.next_id by {
                assert(self.slots@[i] == marked[i]);
                assert(orig[i].id <= self.next_id);
            }
        }
        spent
    }

    /// A back gesture landed on an entry recording `depth`: closes every layer
    /// above it. Returns the ids whose callbacks must run (innermost first) and
    /// whether the entry was stale (deeper than anything left), in which case
    /// the glue steps back once more.
    pub fn popstate(&mut self, depth: usize) -> (r: (Vec<u64>, bool))
        requires
            old(self).wf(),
        ensures
            final(self).wf(),
            final(self).view() == old(self).view().take(
                if depth < old(self).view().len() { depth as int } else { old(self).view().len() as int },
            ),
            r.0@ == popped_open_ids(old(self).view(), depth as nat),
            r.1 == (depth > old(self).view().len()),
            final(self).next_id == old(self).next_id,
            final(self).listening == old(self).listening,
    {
        let ghost orig = self.slots@;
        let mut closing: Vec<u64> = Vec::new();
        while self.slots.len() > depth
            invariant
                self.slots@ =~= orig.take(self.slots@.len() as int),
                self.slots@.len() <= orig.len(),
                self.slots@.len() >= depth || self.slots@.len() == orig.len(),
                self.next_id == old(self).next_id,
                self.listening == old(self).listening,
                orig == old(self).slots@,
                closing@ + popped_open_ids(self.slots@, depth as nat) == popped_open_ids(orig, depth as nat),
            decreases self.slots@.len(),
        {
            let ghost before = self.slots@;
            let slot = self.slots.pop().unwrap();
            proof {
                assert(before.drop_last() =~= self.slots@);
                assert(before.last() == slot);
            }
            if slot.open {
                closing.push(slot.id);
                proof {
                    assert(closing@ + popped_open_ids(self.slots@, depth as nat)
                        =~= (closing@.drop_last()) + (seq![slot.id] + popped_open_ids(self.slots@, depth as nat)));
                }
            }
        }
        proof {
            assert(popped_open_ids(self.slots@, depth as nat) =~= Seq::<u64>::empty());
            assert(closing@ =~= popped_open_ids(orig, depth as nat));
        }
        proof {
            assert forall|i: int, j: int| 0 <= i < j < self.slots@.len() implies self.slots@[i].id < self.slots@[j].id by {
                assert(self.slots@[i] == orig[i]);
                assert(self.slots@[j] == orig[j]);
            }
            assert forall|i: int| 0 <= i < self.slots@.len() implies self.slots@[i].id <= self.next_id by {
                assert(self.slots@[i] == orig[i]);
            }
        }
        let stale = depth > self.slots.len();
        (closing, stale)
    }

    /// Escape on a desktop: wanted when the top layer asked for it.
    pub fn escape_wanted(&self) -> (b: bool)
        ensures
            b == (self.view().len() > 0 && self.view().last().escape),
    {
        self.slots.len() > 0 && self.slots[self.slots.len() - 1].escape
    }

    /// A key press goes back when it is an Escape nobody handled and the
    /// top layer asked for Escape.
    pub fn escape_goes_back(&self, key: &str, default_prevented: bool) -> (b: bool)
        ensures
            b == (key@ == "Escape"@ && !default_prevented && self.view().len() > 0 && self.view().last().escape),
    {
        crate::command::str_eq(key, "Escape") && !default_prevented && self.escape_wanted()
    }
}


/// One back gesture closes exactly the layer on top: landing on the entry
/// below the topmost open layer closes that layer alone.
pub proof fn law_back_closes_top_layer(s: Seq<BackSlot>)
    requires
        s.len() > 0,
        s.last().open,
    ensures
        popped_open_ids(s, (s.len() - 1) as nat) == seq![s.last().id],
        s.take(s.len() - 1) == s.drop_last(),
{
    assert(popped_open_ids(s.drop_last(), (s.len() - 1) as nat) =~= Seq::<u64>::empty());
    assert(seq![s.last().id] + Seq::<u64>::empty() =~= seq![s.last().id]);
    assert(s.take(s.len() - 1) =~= s.drop_last());
}

/// The `popstate` that follows an unwind lands exactly on the trimmed depth
/// and closes nothing.
pub proof fn law_unwind_popstate_closes_nothing(s: Seq<BackSlot>)
    ensures
        popped_open_ids(s, s.len()) == Seq::<u64>::empty(),
        s.take(s.len() as int) == s,
{
    assert(s.take(s.len() as int) =~= s);
}

/// Opening a layer and closing it by its own controls gives the stack back
/// as it was, spending exactly the one history entry it pushed.
pub proof fn law_register_then_unregister_restores(s: Seq<BackSlot>, id: u64, escape: bool)
    requires
        s.len() == 0 || s.last().open,
        forall|i: int| 0 <= i < s.len() ==> s[i].id < id,
    ensures
        unregistered(s.push(BackSlot { id, open: true, escape }), id) == s,
{
    let t = s.push(BackSlot { id, open: true, escape });
    lemma_index_of_id(s, id);
    assert(t.drop_last() =~= s);
    assert(index_of_id(t, id) == Some(s.len() as int));
    let m = t.update(s.len() as int, BackSlot { id, open: false, escape });
    assert(m.drop_last() =~= s);
    assert(!m.last().open);
    assert(trim_closed(m) == trim_closed(m.drop_last()));
    assert(trim_closed(s) == s);
}

/// A layer closing under one that is still open leaves every entry in place:
/// nothing is unwound until the layers above it go too.
pub proof fn law_out_of_order_close_spends_nothing(s: Seq<BackSlot>, id: u64)
    requires
        s.len() > 0,
        s.last().open,
        s.last().id != id,
    ensures
        unregistered(s, id).len() == s.len(),
{
    lemma_index_of_id(s, id);
    match index_of_id(s, id) {
        None => {},
        Some(i) => {
            let m = s.update(i, BackSlot { open: false, ..s[i] });
            assert(m.last() == s.last());
        },
    }
}

/// Every back gesture closes something while the top layer is open, and an
/// entry is only stale when it is deeper than the whole stack.
pub proof fn law_back_is_never_wasted(s: Seq<BackSlot>, depth: nat)
    requires
        depth < s.len(),
        s.last().open,
    ensures
        popped_open_ids(s, depth).len() > 0,
        popped_open_ids(s, depth)[0] == s.last().id,
{
}

} // verus!
