//! Monitors and global desktop coordinates.
//!
//! A monitor occupies a half-open rectangle `[x, x+width) x [y, y+height)`
//! in global desktop coordinates: inclusive lower bound, exclusive upper
//! bound on both axes, so that a pointer sitting exactly on the shared edge
//! of two adjacent monitors belongs to exactly one of them.
use vstd::prelude::*;
use crate::Point;

verus! {

/// One display, as a geometry snapshot taken at enumeration time.
/// Snapshots are never cached across captures: topology may change.
#[derive(Clone, Copy, PartialEq, Eq, Structural, Debug)]
pub struct Monitor {
    /// Identifier assigned by the platform enumeration.
    pub id: u32,
    /// Global x coordinate of the left edge.
    pub x: i64,
    /// Global y coordinate of the top edge.
    pub y: i64,
    /// Width in pixels.
    pub width: u32,
    /// Height in pixels.
    pub height: u32,
    /// Whether the platform reports this display as the primary one.
    pub primary: bool,
}

/// The rectangular frame a window is given: same shape as a monitor's
/// geometry, without identity.
#[derive(Clone, Copy, PartialEq, Eq, Structural, Debug)]
pub struct Rect {
    pub x: i64,
    pub y: i64,
    pub width: u32,
    pub height: u32,
}

impl Monitor {
    /// The monitor's geometry is representable: its far edges do not
    /// overflow the coordinate type.
    pub open spec fn wf(self) -> bool {
        &&& self.x + self.width <= i64::MAX
        &&& self.y + self.height <= i64::MAX
    }

    /// The half-open containment rule: inclusive lower bound, exclusive
    /// upper bound, on both axes.
    pub open spec fn contains_spec(self, p: Point) -> bool {
        &&& self.x <= p.x < self.x + self.width
        &&& self.y <= p.y < self.y + self.height
    }

    /// Whether the pointer position `p` falls on this monitor.
    pub fn contains(&self, p: Point) -> (r: bool)
        requires
            self.wf(),
        ensures
            r == self.contains_spec(p),
    {
        p.x >= self.x && p.x < self.x + (self.width as i64) && p.y >= self.y && p.y < self.y
            + (self.height as i64)
    }

    /// The window frame that exactly covers this monitor.
    pub open spec fn frame_spec(self) -> Rect {
        Rect { x: self.x, y: self.y, width: self.width, height: self.height }
    }

    /// Returns the frame that exactly covers this monitor.
    pub fn frame(&self) -> (r: Rect)
        ensures
            r == self.frame_spec(),
    {
        Rect { x: self.x, y: self.y, width: self.width, height: self.height }
    }
}

/// Every monitor of an enumeration snapshot is well formed.
pub open spec fn all_wf(mons: Seq<Monitor>) -> bool {
    forall|i: int| 0 <= i < mons.len() ==> #[trigger] mons[i].wf()
}

/// Two monitors' frames do not overlap: on at least one axis the whole of
/// one lies at or beyond the far edge of the other.
pub open spec fn frames_disjoint(a: Monitor, b: Monitor) -> bool {
    ||| a.x + a.width <= b.x
    ||| b.x + b.width <= a.x
    ||| a.y + a.height <= b.y
    ||| b.y + b.height <= a.y
}

/// A pointer position is assigned to at most one of two non-overlapping
/// monitors: the half-open containment rule leaves no double match on a
/// shared boundary.
pub proof fn lemma_boundary_point_on_one_monitor(a: Monitor, b: Monitor, p: Point)
    requires
        frames_disjoint(a, b),
    ensures
        !(a.contains_spec(p) && b.contains_spec(p)),
{
}

/// A pointer position on the shared edge of two side-by-side monitors is
/// assigned to the right-hand one, with no double match and no gap: the
/// inclusive lower bound makes the edge column belong to the monitor that
/// starts there, and the exclusive upper bound takes it away from the one
/// that ends there.
pub proof fn lemma_shared_edge_belongs_right(a: Monitor, b: Monitor, p: Point)
    requires
        a.x + a.width == b.x,
        a.y == b.y,
        a.height == b.height,
        p.x == b.x,
        b.y <= p.y < b.y + b.height,
        p.x < b.x + b.width,
    ensures
        b.contains_spec(p),
        !a.contains_spec(p),
{
}

/// Index of the monitor the pointer is on: the first containing monitor in
/// enumeration order, or 0 (the fallback when the pointer is momentarily
/// off every screen). Meaningful only for a non-empty snapshot.
pub open spec fn selected_index(mons: Seq<Monitor>, p: Point) -> int {
    if exists|k: int| 0 <= k < mons.len() && #[trigger] mons[k].contains_spec(p) {
        least_hit(mons, p)
    } else {
        0
    }
}

/// The smallest index whose monitor contains `p`; `mons.len()` when none does.
pub open spec fn least_hit(mons: Seq<Monitor>, p: Point) -> int
    decreases mons.len(),
{
    if mons.len() == 0 {
        0
    } else if mons[0].contains_spec(p) {
        0
    } else {
        1 + least_hit(mons.skip(1), p)
    }
}

/// `least_hit` is indeed the least containing index: everything before it
/// misses, and it hits unless it equals the length.
pub proof fn lemma_least_hit(mons: Seq<Monitor>, p: Point)
    ensures
        0 <= least_hit(mons, p) <= mons.len(),
        least_hit(mons, p) < mons.len() ==> mons[least_hit(mons, p)].contains_spec(p),
        forall|j: int| 0 <= j < least_hit(mons, p) ==> !(#[trigger] mons[j].contains_spec(p)),
    decreases mons.len(),
{
    if mons.len() > 0 && !mons[0].contains_spec(p) {
        lemma_least_hit(mons.skip(1), p);
        assert forall|j: int| 0 <= j < least_hit(mons, p) implies !(
        #[trigger] mons[j].contains_spec(p)) by {
            if j > 0 {
                assert(mons.skip(1)[j - 1] == mons[j]);
            }
        }
        if least_hit(mons, p) < mons.len() {
            assert(mons.skip(1)[least_hit(mons.skip(1), p)] == mons[least_hit(mons, p)]);
        }
    }
}

/// Finds the monitor under the pointer: the first monitor whose half-open
/// frame contains `p`, falling back to the first enumerated monitor when
/// none does. `None` exactly when the snapshot is empty.
pub fn monitor_under_pointer(mons: &Vec<Monitor>, p: Point) -> (r: Option<usize>)
    requires
        all_wf(mons@),
    ensures
        (r is None) == (mons@.len() == 0),
        r matches Some(i) ==> i < mons@.len() && i == selected_index(mons@, p),
{
    let n = mons.len();
    if n == 0 {
        return None;
    }
    let mut i: usize = 0;
    while i < n
        invariant
            n == mons@.len(),
            0 <= i <= n,
            all_wf(mons@),
            forall|j: int| 0 <= j < i ==> !(#[trigger] mons@[j].contains_spec(p)),
        decreases n - i,
    {
        if mons[i].contains(p) {
            proof {
                lemma_least_hit(mons@, p);
                assert(mons@[i as int].contains_spec(p));
            }
            return Some(i);
        }
        i += 1;
    }
    proof {
        lemma_least_hit(mons@, p);
    }
    Some(0)
}

} // verus!
