//! Window-at-point resolution under a strict occlusion rule.
//!
//! Given one enumeration pass of top-level windows, the resolver picks
//! the window the user is pointing at and rejects it unless it is
//! unambiguously visible there: any other eligible window that is both
//! nearer the viewer and overlapping the candidate's rectangle — at any
//! point, not only under the cursor — rejects the candidate.  A wrong
//! selection is worse than no selection, so partial occlusion always
//! yields "no window".  Queries never fail; an unresolved point is an
//! expected outcome, not an error.

use vstd::prelude::*;
use crate::geometry::Rect;
use crate::text::{lower_of, lowercase, spec_contains_seq, str_contains};

verus! {

/// One top-level window from a single enumeration pass.  The snapshot
/// is stale immediately; z-order ranks compare only within the pass
/// that produced them.
#[derive(PartialEq, Eq, Debug)]
pub struct WindowRecord {
    /// Platform window handle.
    pub id: u32,
    /// Window title.
    pub title: String,
    /// Owning application name.
    pub app_name: String,
    /// Bounds in virtual-desktop space.
    pub rect: Rect,
    /// Stacking rank within this pass; smaller is closer to the viewer.
    pub z_order: i32,
    /// Whether the window is minimized.
    pub is_minimized: bool,
}

impl Clone for WindowRecord {
    /// Field-for-field copy of the snapshot.
    fn clone(&self) -> (r: Self)
        ensures
            r == *self,
    {
        WindowRecord {
            id: self.id,
            title: self.title.clone(),
            app_name: self.app_name.clone(),
            rect: self.rect,
            z_order: self.z_order,
            is_minimized: self.is_minimized,
        }
    }
}

/// Where z-order ranks come from.
#[derive(Clone, Copy, PartialEq, Eq, Structural, Debug)]
pub enum ZOrderSource {
    /// The platform reported an authoritative stacking rank per window.
    NativeZOrder,
    /// No z-order API exists: ranks follow raw enumeration order and
    /// are best-effort only.
    EnumerationOrderFallback,
}

/// A window that takes part in hit testing and occlusion: not
/// minimized and of positive size.
pub open spec fn spec_eligible(w: WindowRecord) -> bool {
    &&& !w.is_minimized
    &&& w.rect.width > 0
    &&& w.rect.height > 0
}

/// Executable form of [`spec_eligible`].
pub fn eligible(w: &WindowRecord) -> (r: bool)
    ensures
        r == spec_eligible(*w),
{
    !w.is_minimized && w.rect.width > 0 && w.rect.height > 0
}

/// The window's area in pixels.
pub open spec fn spec_area(w: WindowRecord) -> int {
    w.rect.width * w.rect.height
}

/// Whether `a` is a strictly better hit-test candidate than `b`:
/// smaller area first — the innermost window is the best guess for
/// what the user points at when only rectangles are known — then the
/// rank nearer the viewer.
pub open spec fn spec_better_candidate(a: WindowRecord, b: WindowRecord) -> bool {
    ||| spec_area(a) < spec_area(b)
    ||| (spec_area(a) == spec_area(b) && a.z_order < b.z_order)
}

/// The best hit-test candidate among windows at or after `i`: the
/// earliest of the smallest eligible windows containing the point.
pub open spec fn spec_hit_from(ws: Seq<WindowRecord>, px: int, py: int, i: int) -> Option<int>
    decreases ws.len() - i,
{
    if i < 0 || ws.len() <= i {
        None
    } else {
        let rest = spec_hit_from(ws, px, py, i + 1);
        if !(spec_eligible(ws[i]) && ws[i].rect.spec_contains_point(px, py)) {
            rest
        } else {
            match rest {
                None => Some(i),
                Some(j) => if spec_better_candidate(ws[j], ws[i]) {
                    Some(j)
                } else {
                    Some(i)
                },
            }
        }
    }
}

/// The hit-test fallback over one enumeration pass.
pub open spec fn spec_hit_test(ws: Seq<WindowRecord>, px: int, py: int) -> Option<int> {
    spec_hit_from(ws, px, py, 0)
}

/// Executable form of [`spec_better_candidate`].
fn better_candidate(a: &WindowRecord, b: &WindowRecord) -> (r: bool)
    ensures
        r == spec_better_candidate(*a, *b),
{
    proof {
        assert((a.rect.width as int) * (a.rect.height as int) <= 0xffff_ffff * 0xffff_ffff)
            by (nonlinear_arith)
            requires
                a.rect.width <= 0xffff_ffffu32,
                a.rect.height <= 0xffff_ffffu32,
        ;
        assert((b.rect.width as int) * (b.rect.height as int) <= 0xffff_ffff * 0xffff_ffff)
            by (nonlinear_arith)
            requires
                b.rect.width <= 0xffff_ffffu32,
                b.rect.height <= 0xffff_ffffu32,
        ;
    }
    let area_a: u64 = (a.rect.width as u64) * (a.rect.height as u64);
    let area_b: u64 = (b.rect.width as u64) * (b.rect.height as u64);
    area_a < area_b || (area_a == area_b && a.z_order < b.z_order)
}

/// Picks the hit-test candidate for a point: the innermost eligible
/// window whose rectangle contains it, ties broken toward the viewer,
/// then toward enumeration order.
pub fn hit_test(windows: &Vec<WindowRecord>, px: i32, py: i32) -> (r: Option<usize>)
    ensures
        match r {
            Some(i) => i < windows@.len() && spec_hit_test(windows@, px as int, py as int) == Some(
                i as int,
            ),
            None => spec_hit_test(windows@, px as int, py as int) is None,
        },
{
    let n = windows.len();
    let mut best: Option<usize> = None;
    let mut i: usize = n;
    while i > 0
        invariant
            n == windows@.len(),
            i <= n,
            match best {
                Some(j) => j < n && spec_hit_from(windows@, px as int, py as int, i as int)
                    == Some(j as int),
                None => spec_hit_from(windows@, px as int, py as int, i as int) is None,
            },
        decreases i,
    {
        i = i - 1;
        let w = &windows[i];
        if eligible(w) && w.rect.contains_point(px, py) {
            best = match best {
                None => Some(i),
                Some(j) => if better_candidate(&windows[j], w) {
                    Some(j)
                } else {
                    Some(i)
                },
            };
        }
    }
    best
}

/// The reserved shell names that are never selectable.
pub open spec fn spec_reserved_title(folded: Seq<char>) -> bool {
    folded == "program manager"@ || folded == "default ime"@
}

/// The name filter: system-shell windows, overlay windows, and this
/// tool's own windows are never returned.
pub open spec fn spec_excluded_by_name(title: Seq<char>, app_name: Seq<char>) -> bool {
    ||| spec_reserved_title(lower_of(title))
    ||| spec_contains_seq(title, "overlay"@)
    ||| spec_contains_seq(title, "JustSnap"@)
    ||| spec_contains_seq(title, "justsnap"@)
    ||| spec_contains_seq(app_name, "JustSnap"@)
    ||| spec_contains_seq(app_name, "justsnap"@)
}

/// Whether the name filter rejects this window: its case-folded title
/// is a reserved system name, its title mentions an overlay, or its
/// title or application name mentions this tool.
pub fn excluded_by_name(w: &WindowRecord) -> (r: bool)
    ensures
        r == spec_excluded_by_name(w.title@, w.app_name@),
{
    let folded = lowercase(w.title.as_str());
    if folded == String::from_str("program manager") || folded == String::from_str(
        "default ime",
    ) {
        return true;
    }
    str_contains(w.title.as_str(), "overlay") || str_contains(w.title.as_str(), "JustSnap")
        || str_contains(w.title.as_str(), "justsnap") || str_contains(
        w.app_name.as_str(),
        "JustSnap",
    ) || str_contains(w.app_name.as_str(), "justsnap")
}

/// Whether another eligible window nearer the viewer overlaps window
/// `i`'s rectangle.
pub open spec fn spec_occluded(ws: Seq<WindowRecord>, i: int) -> bool {
    exists|j: int|
        0 <= j < ws.len() && j != i && spec_eligible(#[trigger] ws[j]) && ws[j].z_order
            < ws[i].z_order && ws[j].rect.spec_intersects(ws[i].rect)
}

/// The strict visibility check: window `i` is rejected if any other
/// eligible window rendered above it overlaps its rectangle anywhere.
pub fn is_occluded(windows: &Vec<WindowRecord>, i: usize) -> (r: bool)
    requires
        i < windows@.len(),
    ensures
        r == spec_occluded(windows@, i as int),
{
    let n = windows.len();
    let mut j: usize = 0;
    while j < n
        invariant
            n == windows@.len(),
            i < n,
            j <= n,
            forall|k: int|
                0 <= k < j && k != i ==> !(spec_eligible(#[trigger] windows@[k])
                    && windows@[k].z_order < windows@[i as int].z_order
                    && windows@[k].rect.spec_intersects(windows@[i as int].rect)),
        decreases n - j,
    {
        if j != i {
            let other = &windows[j];
            if eligible(other) && other.z_order < windows[i].z_order && other.rect.intersects(
                &windows[i].rect,
            ) {
                return true;
            }
        }
        j = j + 1;
    }
    false
}

/// The resolved selection for a point, over one enumeration pass: the
/// hit-test candidate, unless the name filter or the strict occlusion
/// rule rejects it.
pub open spec fn spec_window_at_point(ws: Seq<WindowRecord>, px: int, py: int) -> Option<int> {
    match spec_hit_test(ws, px, py) {
        None => None,
        Some(i) => if spec_excluded_by_name(ws[i].title@, ws[i].app_name@) || spec_occluded(
            ws,
            i,
        ) {
            None
        } else {
            Some(i)
        },
    }
}

/// Answers "which window, if any, is unambiguously visible at this
/// point" over one enumeration pass, as an index into `windows`.
///
/// `None` when no eligible window contains the point, when the name
/// filter rejects the candidate, or when any other eligible window
/// nearer the viewer overlaps the candidate's rectangle — occlusion is
/// decided by z-order and rectangle overlap, not by which window's
/// rectangle contains the point.
pub fn window_index_at_point(windows: &Vec<WindowRecord>, px: i32, py: i32) -> (r: Option<usize>)
    ensures
        match r {
            Some(i) => i < windows@.len() && spec_window_at_point(windows@, px as int, py as int)
                == Some(i as int),
            None => spec_window_at_point(windows@, px as int, py as int) is None,
        },
{
    match hit_test(windows, px, py) {
        None => None,
        Some(i) => {
            if excluded_by_name(&windows[i]) {
                None
            } else if is_occluded(windows, i) {
                None
            } else {
                Some(i)
            }
        },
    }
}

/// As [`window_index_at_point`], returning a copy of the selected
/// record with its resolved z-order attached.
pub fn window_at_point(windows: &Vec<WindowRecord>, px: i32, py: i32) -> (r: Option<WindowRecord>)
    ensures
        match r {
            Some(w) => spec_window_at_point(windows@, px as int, py as int) matches Some(i) && w
                == windows@[i],
            None => spec_window_at_point(windows@, px as int, py as int) is None,
        },
{
    match window_index_at_point(windows, px, py) {
        None => None,
        Some(i) => Some(windows[i].clone()),
    }
}

/// Attaches z-order ranks to one enumeration pass.  With a native
/// source each record keeps the platform rank; with the fallback the
/// rank is the enumeration index — top-to-bottom painter's order,
/// consecutive from zero — and ranks are then strictly increasing in
/// pass order, a total order valid only within this pass.
pub fn assign_z_orders(windows: &Vec<WindowRecord>, source: ZOrderSource) -> (out: Vec<
    WindowRecord,
>)
    requires
        windows@.len() <= 0x7fff_ffff,
    ensures
        out@.len() == windows@.len(),
        forall|i: int|
            0 <= i < windows@.len() ==> {
                let w = windows@[i];
                let o = #[trigger] out@[i];
                &&& o.id == w.id
                &&& o.title == w.title
                &&& o.app_name == w.app_name
                &&& o.rect == w.rect
                &&& o.is_minimized == w.is_minimized
                &&& (source is NativeZOrder ==> o.z_order == w.z_order)
                &&& (source is EnumerationOrderFallback ==> o.z_order == i)
            },
        source is EnumerationOrderFallback ==> forall|i: int, j: int|
            0 <= i < j < out@.len() ==> #[trigger] out@[i].z_order < #[trigger] out@[j].z_order,
{
    let n = windows.len();
    let mut out: Vec<WindowRecord> = Vec::new();
    let mut i: usize = 0;
    while i < n
        invariant
            n == windows@.len(),
            n <= 0x7fff_ffff,
            i <= n,
            out@.len() == i,
            forall|k: int|
                0 <= k < i ==> {
                    let w = windows@[k];
                    let o = #[trigger] out@[k];
                    &&& o.id == w.id
                    &&& o.title == w.title
                    &&& o.app_name == w.app_name
                    &&& o.rect == w.rect
                    &&& o.is_minimized == w.is_minimized
                    &&& (source is NativeZOrder ==> o.z_order == w.z_order)
                    &&& (source is EnumerationOrderFallback ==> o.z_order == k)
                },
        decreases n - i,
    {
        let w = windows[i].clone();
        let z: i32 = match source {
            ZOrderSource::NativeZOrder => w.z_order,
            ZOrderSource::EnumerationOrderFallback => i as i32,
        };
        out.push(
            WindowRecord {
                id: w.id,
                title: w.title,
                app_name: w.app_name,
                rect: w.rect,
                z_order: z,
                is_minimized: w.is_minimized,
            },
        );
        i = i + 1;
    }
    out
}

} // verus!
