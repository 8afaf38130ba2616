//! Monitor snapshots and the containment query shared by region
//! resolution and point-based capture.
//!
//! A monitor list is a fresh snapshot per enumeration call; nothing here
//! caches.  Selection is deterministic: the first monitor in list order
//! whose half-open rectangle contains the query point wins, and the first
//! monitor flagged primary is the fallback.

use vstd::prelude::*;
use crate::geometry::Rect;

verus! {

/// One physical monitor as reported by the platform: origin and size in
/// virtual-desktop physical pixels.
#[derive(PartialEq, Eq, Debug)]
pub struct Monitor {
    /// Platform handle; not stable across reboots.
    pub id: u32,
    /// Display name.
    pub name: String,
    /// Virtual-desktop x coordinate of the top-left corner.
    pub x: i32,
    /// Virtual-desktop y coordinate of the top-left corner.
    pub y: i32,
    /// Width in physical pixels.
    pub width: u32,
    /// Height in physical pixels.
    pub height: u32,
    /// Whether the platform flags this monitor as primary.
    pub is_primary: bool,
}

impl Monitor {
    /// The monitor's bounds as a half-open rectangle.
    pub open spec fn spec_rect(self) -> Rect {
        Rect { x: self.x, y: self.y, width: self.width, height: self.height }
    }

    /// Executable form of [`Self::spec_rect`].
    pub fn rect(&self) -> (r: Rect)
        ensures
            r == self.spec_rect(),
    {
        Rect { x: self.x, y: self.y, width: self.width, height: self.height }
    }
}

impl Clone for Monitor {
    /// Field-for-field copy of the snapshot.
    fn clone(&self) -> (r: Self)
        ensures
            r == *self,
    {
        Monitor {
            id: self.id,
            name: self.name.clone(),
            x: self.x,
            y: self.y,
            width: self.width,
            height: self.height,
            is_primary: self.is_primary,
        }
    }
}

/// Index of the first monitor at or after `i` whose rectangle contains
/// the point.
pub open spec fn first_containing_from(monitors: Seq<Monitor>, px: int, py: int, i: int) -> Option<
    int,
>
    decreases monitors.len() - i,
{
    if i < 0 || monitors.len() <= i {
        None
    } else if monitors[i].spec_rect().spec_contains_point(px, py) {
        Some(i)
    } else {
        first_containing_from(monitors, px, py, i + 1)
    }
}

/// Index of the first monitor at or after `i` flagged primary.
pub open spec fn first_primary_from(monitors: Seq<Monitor>, i: int) -> Option<int>
    decreases monitors.len() - i,
{
    if i < 0 || monitors.len() <= i {
        None
    } else if monitors[i].is_primary {
        Some(i)
    } else {
        first_primary_from(monitors, i + 1)
    }
}

/// The containment search returns only monitors that contain the
/// point.
pub proof fn lemma_first_containing_sound(
    monitors: Seq<Monitor>,
    px: int,
    py: int,
    i: int,
    j: int,
)
    requires
        0 <= i,
        first_containing_from(monitors, px, py, i) == Some(j),
    ensures
        i <= j < monitors.len(),
        monitors[j].spec_rect().spec_contains_point(px, py),
    decreases monitors.len() - i,
{
    if i < monitors.len() && !monitors[i].spec_rect().spec_contains_point(px, py) {
        lemma_first_containing_sound(monitors, px, py, i + 1, j);
    }
}

/// The containment search finds an index whenever any monitor at or
/// after the start contains the point.
pub proof fn lemma_first_containing_finds(
    monitors: Seq<Monitor>,
    px: int,
    py: int,
    k: int,
    i: int,
)
    requires
        0 <= i <= k < monitors.len(),
        monitors[k].spec_rect().spec_contains_point(px, py),
    ensures
        first_containing_from(monitors, px, py, i) is Some,
    decreases k - i,
{
    if i < k && !monitors[i].spec_rect().spec_contains_point(px, py) {
        lemma_first_containing_finds(monitors, px, py, k, i + 1);
    }
}

/// A list holding a primary monitor always yields a primary index.
pub proof fn lemma_first_primary_some(monitors: Seq<Monitor>, k: int, i: int)
    requires
        0 <= i <= k < monitors.len(),
        monitors[k].is_primary,
    ensures
        first_primary_from(monitors, i) is Some,
    decreases k - i,
{
    if !monitors[i].is_primary {
        lemma_first_primary_some(monitors, k, i + 1);
    }
}

/// The monitor that owns a point: the first whose half-open rectangle
/// contains it, else the first primary, else none.
pub open spec fn spec_monitor_index_at_point(monitors: Seq<Monitor>, px: int, py: int) -> Option<
    int,
> {
    match first_containing_from(monitors, px, py, 0) {
        Some(i) => Some(i),
        None => first_primary_from(monitors, 0),
    }
}

/// Finds the monitor owning the point `(px, py)`: containment first,
/// primary as fallback, `None` when the list gives neither.
pub fn monitor_index_at_point(monitors: &Vec<Monitor>, px: i32, py: i32) -> (r: Option<usize>)
    ensures
        match r {
            Some(i) => i < monitors@.len() && spec_monitor_index_at_point(
                monitors@,
                px as int,
                py as int,
            ) == Some(i as int),
            None => spec_monitor_index_at_point(monitors@, px as int, py as int) is None,
        },
{
    monitor_index_at_point_wide(monitors, px as i64, py as i64)
}

/// As [`monitor_index_at_point`], for a point already widened to 64
/// bits; region resolution supplies a center that can sit just past the
/// `i32` range.
pub fn monitor_index_at_point_wide(monitors: &Vec<Monitor>, px: i64, py: i64) -> (r: Option<usize>)
    ensures
        match r {
            Some(i) => i < monitors@.len() && spec_monitor_index_at_point(
                monitors@,
                px as int,
                py as int,
            ) == Some(i as int),
            None => spec_monitor_index_at_point(monitors@, px as int, py as int) is None,
        },
{
    let n = monitors.len();
    let mut i: usize = 0;
    while i < n
        invariant
            n == monitors@.len(),
            i <= n,
            first_containing_from(monitors@, px as int, py as int, 0) == first_containing_from(
                monitors@,
                px as int,
                py as int,
                i as int,
            ),
        decreases n - i,
    {
        let m = &monitors[i];
        if m.x as i64 <= px && px < m.x as i64 + m.width as i64 && m.y as i64 <= py && py < m.y
            as i64 + m.height as i64 {
            return Some(i);
        }
        i = i + 1;
    }
    let mut j: usize = 0;
    while j < n
        invariant
            n == monitors@.len(),
            j <= n,
            first_containing_from(monitors@, px as int, py as int, 0) is None,
            first_primary_from(monitors@, 0) == first_primary_from(monitors@, j as int),
        decreases n - j,
    {
        if monitors[j].is_primary {
            return Some(j);
        }
        j = j + 1;
    }
    None
}

} // verus!
