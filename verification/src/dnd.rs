//! Drag and drop on pointer events: when a press becomes a drag (a mouse or
//! pen travels past a slop, a finger rests long enough first), which zones
//! are under the pointer, and in which order a drop is offered to them.

use vstd::prelude::*;
use crate::command::str_eq;
use crate::text::{cn, cn_spec, views};

verus! {

/// How far (in CSS pixels) a mouse or pen must travel before a press becomes a drag.
pub const DRAG_SLOP: i64 = 5;
/// How long (in milliseconds) a finger must rest before a press becomes a drag.
pub const LONG_PRESS_MS: u32 = 350;
/// How far a finger may stray during the hold before the press is read as a scroll.
pub const TOUCH_SLOP: i64 = 10;

/// What is being dragged, or dropped on: a caller-defined kind and an id.
#[derive(Clone, Debug)]
pub struct DragId {
    pub kind: String,
    pub id: i64,
}

impl View for DragId {
    type V = (Seq<char>, i64);

    open spec fn view(&self) -> (Seq<char>, i64) {
        (self.kind@, self.id)
    }
}

pub open spec fn ids_view(s: Seq<DragId>) -> Seq<(Seq<char>, i64)> {
    s.map_values(|d: DragId| d@)
}

impl DragId {
    pub fn new(kind: &str, id: i64) -> (d: Self)
        ensures
            d@ == (kind@, id),
    {
        DragId { kind: String::from_str(kind), id }
    }

    /// Whether this is exactly `(kind, id)`.
    pub fn is(&self, kind: &str, id: i64) -> (b: bool)
        ensures
            b == (self@ == (kind@, id)),
    {
        str_eq(self.kind.as_str(), kind) && self.id == id
    }

    /// Whether two ids are the same.
    pub fn same(&self, other: &DragId) -> (b: bool)
        ensures
            b == (self@ == other@),
    {
        self.is(other.kind.as_str(), other.id)
    }

    pub fn duplicate(&self) -> (d: DragId)
        ensures
            d@ == self@,
    {
        DragId { kind: String::from_str(self.kind.as_str()), id: self.id }
    }
}

/// A press that has not (yet) become a drag.
#[derive(Clone, Debug)]
pub struct Pending {
    pub item: DragId,
    pub pointer_id: i32,
    /// Where the press landed, in client pixels.
    pub origin_x: i32,
    pub origin_y: i32,
    /// Pressed by a finger (hold to drag) rather than a mouse or pen (move to drag).
    pub touch: bool,
}

/// The drag state under a provider.
pub struct DndState {
    /// The item being dragged.
    pub active: Option<DragId>,
    /// Every zone under the pointer, innermost first.
    pub over_path: Vec<DragId>,
    pub pending: Option<Pending>,
    /// The registered drop zones, in registration order.
    pub zones: Vec<DragId>,
}

/// What a pointer move asks of the page.
#[derive(Clone, Copy, Debug, PartialEq, Eq, Structural)]
pub enum MoveAction {
    /// Not ours: let the browser have it.
    Ignore,
    /// A drag is under way (or just began): suppress the browser's default
    /// and hit-test the zones under the pointer.
    Track,
}

/// The larger of the two axis distances between two points.
pub open spec fn travel(ox: i32, oy: i32, x: i32, y: i32) -> int {
    let dx = if x >= ox { x - ox } else { ox - x };
    let dy = if y >= oy { y - oy } else { oy - y };
    if dx >= dy { dx } else { dy }
}

/// The press turns into a drag on this move: a mouse or pen has travelled
/// at least the slop; a finger has rested for the hold.
pub open spec fn activates(p: Pending, x: i32, y: i32, hold_elapsed: bool) -> bool {
    if p.touch { hold_elapsed } else { travel(p.origin_x, p.origin_y, x, y) >= DRAG_SLOP }
}

/// A finger that strays past its slop before the hold is over is scrolling.
pub open spec fn abandons(p: Pending, x: i32, y: i32, hold_elapsed: bool) -> bool {
    p.touch && !hold_elapsed && travel(p.origin_x, p.origin_y, x, y) > TOUCH_SLOP
}

fn abs_diff(a: i32, b: i32) -> (d: i64)
    ensures
        d == (if a >= b { a - b } else { b - a }),
{
    if a >= b { a as i64 - b as i64 } else { b as i64 - a as i64 }
}

impl DndState {
    pub fn new() -> (s: Self)
        ensures
            s.active is None,
            s.over_path@.len() == 0,
            s.pending is None,
            s.zones@.len() == 0,
    {
        DndState { active: None, over_path: Vec::new(), pending: None, zones: Vec::new() }
    }

    /// Whether a drag is in progress.
    pub fn is_active(&self) -> (b: bool)
        ensures
            b == self.active is Some,
    {
        self.active.is_some()
    }

    /// Whether `(kind, id)` is the item being dragged.
    pub fn is_dragging(&self, kind: &str, id: i64) -> (b: bool)
        ensures
            b == (self.active matches Some(a) && a@ == (kind@, id)),
    {
        match &self.active {
            Some(a) => a.is(kind, id),
            None => false,
        }
    }

    /// The innermost zone under the pointer.
    pub fn over(&self) -> (o: Option<DragId>)
        ensures
            self.over_path@.len() == 0 ==> o is None,
            self.over_path@.len() > 0 ==> (o matches Some(d) && d@ == self.over_path@[0]@),
    {
        if self.over_path.len() == 0 {
            None
        } else {
            Some(self.over_path[0].duplicate())
        }
    }

    /// Whether the pointer is over `(kind, id)`, directly or inside one of
    /// its child zones.
    pub fn is_over(&self, kind: &str, id: i64) -> (b: bool)
        ensures
            b == ids_view(self.over_path@).contains((kind@, id)),
    {
        let mut i: usize = 0;
        while i < self.over_path.len()
            invariant
                i <= self.over_path@.len(),
                forall|j: int| 0 <= j < i ==> self.over_path@[j]@ != (kind@, id),
            decreases self.over_path@.len() - i,
        {
            if self.over_path[i].is(kind, id) {
                proof {
                    assert(ids_view(self.over_path@)[i as int] == (kind@, id));
                }
                return true;
            }
            i = i + 1;
        }
        proof {
            if ids_view(self.over_path@).contains((kind@, id)) {
                let j = choose|j: int| 0 <= j < ids_view(self.over_path@).len() && ids_view(self.over_path@)[j] == (kind@, id);
                assert(self.over_path@[j]@ == (kind@, id));
            }
        }
        false
    }

    /// The kind of the dragged item, for a zone the pointer is over.
    pub fn over_kind(&self, kind: &str, id: i64) -> (k: Option<String>)
        ensures
            (ids_view(self.over_path@).contains((kind@, id)) && self.active is Some) ==> (k matches Some(s) && s@ == self.active->0.kind@),
            !(ids_view(self.over_path@).contains((kind@, id)) && self.active is Some) ==> k is None,
    {
        if self.is_over(kind, id) {
            match &self.active {
                Some(a) => Some(String::from_str(a.kind.as_str())),
                None => None,
            }
        } else {
            None
        }
    }

    /// Registers a drop zone.
    pub fn register(&mut self, zone: DragId)
        ensures
            ids_view(final(self).zones@) == ids_view(old(self).zones@).push(zone@),
            final(self).active == old(self).active,
            final(self).pending == old(self).pending,
            final(self).over_path@ == old(self).over_path@,
    {
        self.zones.push(zone);
        proof {
            assert(ids_view(self.zones@) =~= ids_view(old(self).zones@).push(zone@));
        }
    }

    /// Unregisters every zone with this id.
    pub fn unregister(&mut self, zone: &DragId)
        ensures
            ids_view(final(self).zones@) == without(ids_view(old(self).zones@), zone@),
            final(self).active == old(self).active,
            final(self).pending == old(self).pending,
            final(self).over_path@ == old(self).over_path@,
    {
        let mut kept: Vec<DragId> = Vec::new();
        let mut i: usize = 0;
        proof {
            assert(ids_view(self.zones@).take(0) =~= Seq::<(Seq<char>, i64)>::empty());
            assert(ids_view(kept@) =~= Seq::<(Seq<char>, i64)>::empty());
        }
        while i < self.zones.len()
            invariant
                i <= self.zones@.len(),
                ids_view(kept@) == without(ids_view(self.zones@).take(i as int), zone@),
            decreases self.zones@.len() - i,
        {
            let z = self.zones[i].duplicate();
            proof {
                assert(ids_view(self.zones@).take(i + 1).drop_last() =~= ids_view(self.zones@).take(i as int));
                assert(ids_view(self.zones@).take(i + 1).last() == z@);
            }
            if !z.same(zone) {
                let ghost before = kept@;
                kept.push(z);
                proof {
                    assert(ids_view(kept@) =~= ids_view(before).push(z@));
                }
            }
            i = i + 1;
        }
        proof {
            assert(ids_view(self.zones@).take(self.zones@.len() as int) =~= ids_view(self.zones@));
        }
        self.zones = kept;
    }

    /// A press on an item: it becomes pending.
    pub fn start(&mut self, pending: Pending)
        ensures
            final(self).pending == Some(pending),
            final(self).active == old(self).active,
            final(self).over_path@ == old(self).over_path@,
            final(self).zones@ == old(self).zones@,
    {
        self.pending = Some(pending);
    }

    /// A pointer move to `(x, y)`; `hold_elapsed` tells whether a touch has
    /// rested for [`LONG_PRESS_MS`]. During a drag every move is tracked;
    /// a pending press by the same pointer becomes the drag once it
    /// activates, or is dropped when a finger scrolls away; anything else
    /// is ignored.
    pub fn pointer_move(&mut self, pointer_id: i32, x: i32, y: i32, hold_elapsed: bool) -> (a: MoveAction)
        ensures
            final(self).over_path@ == old(self).over_path@,
            final(self).zones@ == old(self).zones@,
            old(self).active is Some ==> (a == MoveAction::Track && final(self).active == old(self).active
                && final(self).pending == old(self).pending),
            old(self).active is None ==> match old(self).pending {
                None => a == MoveAction::Ignore && final(self).active is None && final(self).pending is None,
                Some(p) => if p.pointer_id != pointer_id {
                    a == MoveAction::Ignore && final(self).active is None && final(self).pending == old(self).pending
                } else if abandons(p, x, y, hold_elapsed) {
                    a == MoveAction::Ignore && final(self).active is None && final(self).pending is None
                } else if activates(p, x, y, hold_elapsed) {
                    &&& a == MoveAction::Track
                    &&& final(self).active matches Some(d) && d@ == p.item@
                    &&& final(self).pending == old(self).pending
                } else {
                    a == MoveAction::Ignore && final(self).active is None && final(self).pending == old(self).pending
                },
            },
    {
        if self.active.is_some() {
            return MoveAction::Track;
        }
        let (pid, origin, touch) = match &self.pending {
            Some(p) => (p.pointer_id, (p.origin_x, p.origin_y), p.touch),
            None => {
                return MoveAction::Ignore;
            },
        };
        if pid != pointer_id {
            return MoveAction::Ignore;
        }
        let dx = abs_diff(x, origin.0);
        let dy = abs_diff(y, origin.1);
        let moved: i64 = if dx >= dy { dx } else { dy };
        if touch {
            if !hold_elapsed {
                if moved > TOUCH_SLOP {
                    self.pending = None;
                }
                return MoveAction::Ignore;
            }
        } else if moved < DRAG_SLOP {
            return MoveAction::Ignore;
        }
        let item = match &self.pending {
            Some(p) => p.item.duplicate(),
            None => {
                return MoveAction::Ignore;
            },
        };
        self.active = Some(item);
        MoveAction::Track
    }

    /// Records the zones found under the pointer (innermost first); `true`
    /// when that changed what is hovered.
    pub fn track(&mut self, found: Vec<DragId>) -> (changed: bool)
        ensures
            ids_view(final(self).over_path@) == ids_view(found@),
            changed == (ids_view(old(self).over_path@) != ids_view(found@)),
            final(self).active == old(self).active,
            final(self).pending == old(self).pending,
            final(self).zones@ == old(self).zones@,
    {
        let same = same_path(&self.over_path, &found);
        if !same {
            self.over_path = found;
        }
        !same
    }

    /// Calls the gesture off: no pending press, no drag, nothing hovered.
    pub fn reset(&mut self)
        ensures
            final(self).pending is None,
            final(self).active is None,
            final(self).over_path@.len() == 0,
            final(self).zones@ == old(self).zones@,
    {
        self.pending = None;
        self.active = None;
        self.over_path = Vec::new();
    }

    /// The pointer was released: the gesture ends, and a drag's item is
    /// offered to the zones it was over, innermost first. Returns the item
    /// and, for each zone on the path that is registered, the index of its
    /// first registration (whose handler is asked), in path order.
    pub fn pointer_up(&mut self) -> (r: Option<(DragId, Vec<usize>)>)
        ensures
            final(self).pending is None,
            final(self).active is None,
            final(self).over_path@.len() == 0,
            final(self).zones@ == old(self).zones@,
            old(self).active is None ==> r is None,
            old(self).active matches Some(item) ==> (r matches Some(x) && x.0@ == item@
                && x.1@ == drop_order(ids_view(old(self).over_path@), ids_view(old(self).zones@))),
    {
        let item = match &self.active {
            Some(a) => Some(a.duplicate()),
            None => None,
        };
        let order = drop_candidates(&self.over_path, &self.zones);
        self.reset();
        match item {
            Some(i) => Some((i, order)),
            None => None,
        }
    }
}

/// `s` without any occurrence of `x`, order kept.
pub open spec fn without<A>(s: Seq<A>, x: A) -> Seq<A>
    decreases s.len(),
{
    if s.len() == 0 {
        s
    } else {
        let prev = without(s.drop_last(), x);
        if s.last() == x { prev } else { prev.push(s.last()) }
    }
}

/// Whether two paths hold the same zones in the same order.
fn same_path(a: &Vec<DragId>, b: &Vec<DragId>) -> (r: bool)
    ensures
        r == (ids_view(a@) == ids_view(b@)),
{
    if a.len() != b.len() {
        proof {
            assert(ids_view(a@).len() != ids_view(b@).len());
        }
        return false;
    }
    let mut i: usize = 0;
    while i < a.len()
        invariant
            a@.len() == b@.len(),
            i <= a@.len(),
            forall|j: int| 0 <= j < i ==> a@[j]@ == b@[j]@,
        decreases a@.len() - i,
    {
        if !a[i].same(&b[i]) {
            proof {
                assert(ids_view(a@)[i as int] != ids_view(b@)[i as int]);
            }
            return false;
        }
        i = i + 1;
    }
    proof {
        assert(ids_view(a@) =~= ids_view(b@));
    }
    true
}

/// The index of the first registration of `zone`.
pub open spec fn first_index(zones: Seq<(Seq<char>, i64)>, zone: (Seq<char>, i64)) -> Option<int>
    decreases zones.len(),
{
    if zones.len() == 0 {
        None
    } else {
        match first_index(zones.drop_last(), zone) {
            Some(i) => Some(i),
            None => if zones.last() == zone { Some(zones.len() - 1) } else { None },
        }
    }
}

/// For each zone on the path, innermost first, its first registration, if
/// it has one.
pub open spec fn drop_order(path: Seq<(Seq<char>, i64)>, zones: Seq<(Seq<char>, i64)>) -> Seq<usize>
    decreases path.len(),
{
    if path.len() == 0 {
        Seq::empty()
    } else {
        let prev = drop_order(path.drop_last(), zones);
        match first_index(zones, path.last()) {
            Some(i) => prev.push(i as usize),
            None => prev,
        }
    }
}

fn find_first(zones: &Vec<DragId>, zone: &DragId) -> (r: Option<usize>)
    ensures
        r == match first_index(ids_view(zones@), zone@) { Some(i) => Some(i as usize), None => None::<usize> },
        r matches Some(i) ==> i < zones@.len(),
{
    let mut i: usize = 0;
    while i < zones.len()
        invariant
            i <= zones@.len(),
            first_index(ids_view(zones@).take(i as int), zone@) is None,
        decreases zones@.len() - i,
    {
        proof {
            assert(ids_view(zones@).take(i + 1).drop_last() =~= ids_view(zones@).take(i as int));
        }
        if zones[i].same(zone) {
            proof {
                lemma_first_index_prefix(ids_view(zones@), zone@, i + 1);
            }
            return Some(i);
        }
        i = i + 1;
    }
    proof {
        assert(ids_view(zones@).take(zones@.len() as int) =~= ids_view(zones@));
    }
    None
}

/// A registration found within a prefix is the first one overall.
proof fn lemma_first_index_prefix(zones: Seq<(Seq<char>, i64)>, zone: (Seq<char>, i64), k: int)
    requires
        0 <= k <= zones.len(),
        first_index(zones.take(k), zone) is Some,
    ensures
        first_index(zones, zone) == first_index(zones.take(k), zone),
    decreases zones.len() - k,
{
    if k < zones.len() {
        assert(zones.take(k + 1).drop_last() =~= zones.take(k));
        lemma_first_index_prefix(zones, zone, k + 1);
    } else {
        assert(zones.take(k) =~= zones);
    }
}

/// The handlers a drop is offered to, in order.
pub fn drop_candidates(path: &Vec<DragId>, zones: &Vec<DragId>) -> (order: Vec<usize>)
    ensures
        order@ == drop_order(ids_view(path@), ids_view(zones@)),
{
    let mut order: Vec<usize> = Vec::new();
    let mut i: usize = 0;
    while i < path.len()
        invariant
            i <= path@.len(),
            order@ == drop_order(ids_view(path@).take(i as int), ids_view(zones@)),
        decreases path@.len() - i,
    {
        proof {
            assert(ids_view(path@).take(i + 1).drop_last() =~= ids_view(path@).take(i as int));
            assert(ids_view(path@).take(i + 1).last() == path@[i as int]@);
        }
        match find_first(zones, &path[i]) {
            Some(k) => order.push(k),
            None => {},
        }
        i = i + 1;
    }
    proof {
        assert(ids_view(path@).take(path@.len() as int) =~= ids_view(path@));
    }
    order
}

/// A drop zone from the `data-dnd-zone-kind` and `data-dnd-zone-id`
/// attributes of an element: both present and the id a decimal `i64`.
pub fn zone_from_attributes(kind: Option<&str>, id: Option<&str>) -> (z: Option<DragId>)
    ensures
        z matches Some(d) ==> (kind matches Some(k) && id matches Some(i)
            && crate::stepper::parse_i64_spec(i@) == Some(d.id) && d.kind@ == k@),
        (kind matches Some(k) && id matches Some(i) && crate::stepper::parse_i64_spec(i@) is Some) ==> z is Some,
{
    match (kind, id) {
        (Some(k), Some(i)) => match crate::stepper::parse_i64(i) {
            Some(n) => Some(DragId::new(k, n)),
            None => None,
        },
        _ => None,
    }
}

/// Whether a primary press on a draggable starts one: never when disabled;
/// with a handle inside, only on this draggable's own handle; without one,
/// anywhere but on a control.
pub fn press_starts_drag(disabled: bool, button: i16, has_handle: bool, on_own_handle: bool, on_control: bool) -> (b: bool)
    ensures
        b == (!disabled && button == 0 && (if has_handle { on_own_handle } else { !on_control })),
{
    if disabled || button != 0 {
        return false;
    }
    if has_handle { on_own_handle } else { !on_control }
}

/// A draggable's classes: it takes the vertical pan and no text selection
/// unless disabled.
pub fn draggable_class(disabled: bool, extra: &str) -> (r: String)
    ensures
        r@ == cn_spec(seq![if disabled { ""@ } else { "touch-pan-y select-none"@ }, extra@]),
{
    let base: &str = if disabled { "" } else { "touch-pan-y select-none" };
    let parts = [base, extra];
    let r = cn(&parts);
    proof {
        assert(views(parts@) =~= seq![if disabled { ""@ } else { "touch-pan-y select-none"@ }, extra@]);
    }
    r
}

/// A drag handle's classes.
pub fn drag_handle_class(extra: &str) -> (r: String)
    ensures
        r@ == cn_spec(seq!["inline-flex cursor-grab touch-none select-none active:cursor-grabbing"@, extra@]),
{
    let parts = ["inline-flex cursor-grab touch-none select-none active:cursor-grabbing", extra];
    let r = cn(&parts);
    proof {
        assert(views(parts@) =~= seq!["inline-flex cursor-grab touch-none select-none active:cursor-grabbing"@, extra@]);
    }
    r
}

/// A mouse or pen press never turns into a drag before it has travelled the
/// slop, and a touch never before its hold; a pointer other than the one
/// that pressed never turns it into a drag.
pub proof fn law_no_accidental_drag(p: Pending, x: i32, y: i32, hold_elapsed: bool)
    ensures
        (!p.touch && travel(p.origin_x, p.origin_y, x, y) < DRAG_SLOP) ==> !activates(p, x, y, hold_elapsed),
        (p.touch && !hold_elapsed) ==> !activates(p, x, y, hold_elapsed),
{
}

/// A drop is offered to the zones under the pointer from the innermost
/// outwards: the candidates follow the path's order, and each names a
/// registration of the zone at that place on the path.
pub proof fn law_drop_goes_innermost_first(path: Seq<(Seq<char>, i64)>, zones: Seq<(Seq<char>, i64)>)
    ensures
        drop_order(path, zones).len() <= path.len(),
        forall|k: int| 0 <= k < drop_order(path, zones).len() ==> (#[trigger] drop_order(path, zones)[k] as int) < zones.len(),
        (path.len() > 0 && first_index(zones, path[0]) is Some) ==> drop_order(path, zones)[0] == first_index(zones, path[0])->0 as usize,
    decreases path.len(),
{
    if path.len() > 0 {
        law_drop_goes_innermost_first(path.drop_last(), zones);
        lemma_first_index_in_range(zones, path.last());
        if path.len() > 1 {
            assert(path.drop_last()[0] == path[0]);
            if first_index(zones, path[0]) is Some {
                lemma_drop_order_nonempty(path.drop_last(), zones);
            }
        }
    }
}

proof fn lemma_first_index_in_range(zones: Seq<(Seq<char>, i64)>, zone: (Seq<char>, i64))
    ensures
        first_index(zones, zone) matches Some(i) ==> 0 <= i < zones.len() && zones[i] == zone,
    decreases zones.len(),
{
    if zones.len() > 0 {
        lemma_first_index_in_range(zones.drop_last(), zone);
    }
}

proof fn lemma_drop_order_nonempty(path: Seq<(Seq<char>, i64)>, zones: Seq<(Seq<char>, i64)>)
    requires
        path.len() > 0,
        first_index(zones, path[0]) is Some,
    ensures
        drop_order(path, zones).len() > 0,
        drop_order(path, zones)[0] == first_index(zones, path[0])->0 as usize,
    decreases path.len(),
{
    let prev = drop_order(path.drop_last(), zones);
    if path.len() > 1 {
        assert(path.drop_last()[0] == path[0]);
        lemma_drop_order_nonempty(path.drop_last(), zones);
        assert(prev.len() > 0);
        match first_index(zones, path.last()) {
            Some(i) => assert(prev.push(i as usize)[0] == prev[0]),
            None => {},
        }
    } else {
        assert(path.last() == path[0]);
        assert(path.drop_last().len() == 0);
        assert(prev.len() == 0);
    }
}

} // verus!
