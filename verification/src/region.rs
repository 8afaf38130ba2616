//! Region resolution: mapping a virtual-desktop rectangle to the single
//! monitor that owns it, and re-expressing it in that monitor's local
//! pixel space.
//!
//! The owner is the monitor whose half-open bounds contain the region's
//! center, computed with floor division; the first primary monitor is the
//! fallback.  The translation subtracts the chosen monitor's origin and
//! leaves width and height unchanged — region coordinates and monitor
//! geometry share the same physical-pixel unit, so no scale factor is
//! applied.

use vstd::prelude::*;
use crate::errors::CaptureError;
use crate::monitor::{
    Monitor,
    first_containing_from,
    monitor_index_at_point_wide,
    spec_monitor_index_at_point,
};

verus! {

/// A requested capture rectangle in virtual-desktop physical pixels.
/// `x` and `y` may be negative for monitors left of or above the
/// primary; width and height are positive.
#[derive(Clone, Copy, PartialEq, Eq, Structural, Debug)]
pub struct CaptureRegion {
    pub x: i32,
    pub y: i32,
    pub width: i32,
    pub height: i32,
}

/// A rectangle translated into one monitor's local pixel space.  The
/// origin is 64-bit: a virtual-desktop coordinate minus a monitor origin
/// can leave the 32-bit range.
#[derive(Clone, Copy, PartialEq, Eq, Structural, Debug)]
pub struct LocalRegion {
    pub x: i64,
    pub y: i64,
    pub width: i32,
    pub height: i32,
}

impl CaptureRegion {
    /// A well-formed region has positive width and height.
    pub open spec fn wf(self) -> bool {
        1 <= self.width && 1 <= self.height
    }

    /// Horizontal center, by floor division.
    pub open spec fn spec_center_x(self) -> int {
        self.x + self.width / 2
    }

    /// Vertical center, by floor division.
    pub open spec fn spec_center_y(self) -> int {
        self.y + self.height / 2
    }

    /// The region's center point, computed without overflow in 64 bits.
    pub fn center(&self) -> (c: (i64, i64))
        requires
            self.wf(),
        ensures
            c.0 == self.spec_center_x(),
            c.1 == self.spec_center_y(),
    {
        (self.x as i64 + (self.width / 2) as i64, self.y as i64 + (self.height / 2) as i64)
    }
}

/// Whether the region lies entirely inside the monitor's bounds.
pub open spec fn region_inside_monitor(region: CaptureRegion, m: Monitor) -> bool {
    &&& m.spec_rect().left() <= region.x
    &&& region.x + region.width <= m.spec_rect().right()
    &&& m.spec_rect().top() <= region.y
    &&& region.y + region.height <= m.spec_rect().bottom()
}

/// Index of the monitor that owns the region: the one containing its
/// center, else the first primary.
pub open spec fn spec_resolve_index(region: CaptureRegion, monitors: Seq<Monitor>) -> Option<int> {
    spec_monitor_index_at_point(monitors, region.spec_center_x(), region.spec_center_y())
}

/// The region translated by the negated origin of `m`; size unchanged.
pub open spec fn spec_local_region(region: CaptureRegion, m: Monitor) -> LocalRegion {
    LocalRegion {
        x: (region.x - m.x) as i64,
        y: (region.y - m.y) as i64,
        width: region.width,
        height: region.height,
    }
}

/// Resolves a capture region to the monitor that owns it and the
/// equivalent monitor-local rectangle.
///
/// Returns the index of the owning monitor in `monitors` together with
/// the translated region; fails with `NoMonitorAvailable` exactly when
/// no monitor contains the region's center and none is primary — in
/// particular whenever the list is empty.
pub fn resolve(region: &CaptureRegion, monitors: &Vec<Monitor>) -> (r: Result<
    (usize, LocalRegion),
    CaptureError,
>)
    requires
        region.wf(),
    ensures
        match r {
            Ok((idx, local)) => {
                &&& idx < monitors@.len()
                &&& spec_resolve_index(*region, monitors@) == Some(idx as int)
                &&& local == spec_local_region(*region, monitors@[idx as int])
            },
            Err(e) => {
                &&& e is NoMonitorAvailable
                &&& spec_resolve_index(*region, monitors@) is None
            },
        },
{
    let (cx, cy) = region.center();
    match monitor_index_at_point_wide(monitors, cx, cy) {
        Some(idx) => {
            let m = &monitors[idx];
            let local = LocalRegion {
                x: region.x as i64 - m.x as i64,
                y: region.y as i64 - m.y as i64,
                width: region.width,
                height: region.height,
            };
            Ok((idx, local))
        },
        None => Err(CaptureError::NoMonitorAvailable),
    }
}

/// Monitors whose rectangles pairwise do not overlap, as a physical
/// layout guarantees.
pub open spec fn monitors_disjoint(monitors: Seq<Monitor>) -> bool {
    forall|i: int, j: int|
        0 <= i < monitors.len() && 0 <= j < monitors.len() && i != j ==> !(
        #[trigger] monitors[i].spec_rect().spec_intersects(monitors[j].spec_rect()))
}

proof fn lemma_first_containing_unique(
    monitors: Seq<Monitor>,
    px: int,
    py: int,
    k: int,
    i: int,
)
    requires
        0 <= i <= k < monitors.len(),
        monitors[k].spec_rect().spec_contains_point(px, py),
        forall|j: int|
            0 <= j < monitors.len() && j != k ==> !(
            #[trigger] monitors[j].spec_rect().spec_contains_point(px, py)),
    ensures
        first_containing_from(monitors, px, py, i) == Some(k),
    decreases k - i,
{
    if i < k {
        lemma_first_containing_unique(monitors, px, py, k, i + 1);
    }
}

/// A region entirely inside one monitor of a disjoint layout resolves
/// to that monitor, and its local form is the region translated by the
/// negated monitor origin with its size unchanged.
pub proof fn lemma_resolve_region_inside(region: CaptureRegion, monitors: Seq<Monitor>, k: int)
    requires
        region.wf(),
        0 <= k < monitors.len(),
        region_inside_monitor(region, monitors[k]),
        monitors_disjoint(monitors),
    ensures
        spec_resolve_index(region, monitors) == Some(k),
        spec_local_region(region, monitors[k]).x == region.x - monitors[k].x,
        spec_local_region(region, monitors[k]).y == region.y - monitors[k].y,
        spec_local_region(region, monitors[k]).width == region.width,
        spec_local_region(region, monitors[k]).height == region.height,
{
    let cx = region.spec_center_x();
    let cy = region.spec_center_y();
    assert(0 <= region.width / 2 < region.width);
    assert(0 <= region.height / 2 < region.height);
    assert(monitors[k].spec_rect().spec_contains_point(cx, cy));
    assert forall|j: int| 0 <= j < monitors.len() && j != k implies !(
    #[trigger] monitors[j].spec_rect().spec_contains_point(cx, cy)) by {
        if monitors[j].spec_rect().spec_contains_point(cx, cy) {
            crate::geometry::lemma_shared_point_intersects(
                monitors[j].spec_rect(),
                monitors[k].spec_rect(),
                cx,
                cy,
            );
        }
    }
    lemma_first_containing_unique(monitors, cx, cy, k, 0);
}

/// A region always resolves to exactly one monitor whenever any
/// monitor is flagged primary, as the platform guarantees: the owner
/// is the first monitor containing the center where one exists, and
/// the first primary otherwise — never zero, never ambiguous.
pub proof fn lemma_resolve_total_with_primary(
    region: CaptureRegion,
    monitors: Seq<Monitor>,
    k: int,
)
    requires
        0 <= k < monitors.len(),
        monitors[k].is_primary,
    ensures
        spec_resolve_index(region, monitors) is Some,
{
    if first_containing_from(
        monitors,
        region.spec_center_x(),
        region.spec_center_y(),
        0,
    ) is None {
        crate::monitor::lemma_first_primary_some(monitors, k, 0);
    }
}

/// A center that falls exactly on the shared vertical boundary of two
/// side-by-side monitors belongs to the right-hand monitor alone: the
/// half-open rule (`x < right`, not `x <= right`) keeps resolution
/// deterministic on boundaries, and `resolve` pins its result to
/// `spec_resolve_index`, a function of the inputs, so equal inputs
/// always pick the same monitor.
pub proof fn lemma_boundary_center_is_right_monitor(left_m: Monitor, right_m: Monitor, cx: int, cy: int)
    requires
        left_m.spec_rect().right() == right_m.spec_rect().left(),
        cx == right_m.spec_rect().left(),
        1 <= right_m.width,
        right_m.spec_rect().top() <= cy < right_m.spec_rect().bottom(),
    ensures
        !left_m.spec_rect().spec_contains_point(cx, cy),
        right_m.spec_rect().spec_contains_point(cx, cy),
{
}

/// In any monitor list, a region whose center sits exactly on the
/// shared vertical edge between the monitor at index `a` and the one
/// at index `b` always resolves — to a monitor containing the center
/// — and never to `a`: the half-open rule excludes the left-hand
/// monitor's right edge.
pub proof fn lemma_boundary_resolution(
    region: CaptureRegion,
    monitors: Seq<Monitor>,
    a: int,
    b: int,
)
    requires
        0 <= a < monitors.len(),
        0 <= b < monitors.len(),
        monitors[a].spec_rect().right() == monitors[b].spec_rect().left(),
        region.spec_center_x() == monitors[b].spec_rect().left(),
        1 <= monitors[b].width,
        monitors[b].spec_rect().top() <= region.spec_center_y() < monitors[b].spec_rect().bottom(),
    ensures
        spec_resolve_index(region, monitors) is Some,
        spec_resolve_index(region, monitors) != Some(a),
{
    let cx = region.spec_center_x();
    let cy = region.spec_center_y();
    assert(monitors[b].spec_rect().spec_contains_point(cx, cy));
    assert(!monitors[a].spec_rect().spec_contains_point(cx, cy));
    crate::monitor::lemma_first_containing_finds(monitors, cx, cy, b, 0);
    let j = first_containing_from(monitors, cx, cy, 0).unwrap();
    crate::monitor::lemma_first_containing_sound(monitors, cx, cy, 0, j);
}

} // verus!
