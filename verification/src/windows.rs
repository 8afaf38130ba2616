//! The window list handed to the selection UI.
//!
//! Enumeration itself is platform work; this module holds the verified
//! filter applied to each pass: zero-sized windows and this tool's own
//! windows are dropped, and everything else is kept in enumeration
//! order.  Empty titles stay — many valid top-level dialogs have no
//! title.

use vstd::prelude::*;
use crate::text::{spec_contains_seq, str_contains};

verus! {

/// One enumerated top-level window, as reported to the UI.
#[derive(PartialEq, Eq, Debug)]
pub struct WindowInfo {
    /// Platform window handle.
    pub id: u32,
    /// Window title; may be empty.
    pub title: String,
    /// Virtual-desktop x coordinate.
    pub x: i32,
    /// Virtual-desktop y coordinate.
    pub y: i32,
    /// Width in pixels.
    pub width: u32,
    /// Height in pixels.
    pub height: u32,
}

impl Clone for WindowInfo {
    /// Field-for-field copy of the snapshot.
    fn clone(&self) -> (r: Self)
        ensures
            r == *self,
    {
        WindowInfo {
            id: self.id,
            title: self.title.clone(),
            x: self.x,
            y: self.y,
            width: self.width,
            height: self.height,
        }
    }
}

/// Whether one enumeration pass keeps this window: positive size and
/// not one of this tool's own windows.
pub open spec fn spec_window_kept(w: WindowInfo) -> bool {
    &&& w.width > 0
    &&& w.height > 0
    &&& !spec_contains_seq(w.title@, "JustSnap"@)
    &&& !spec_contains_seq(w.title@, "justsnap"@)
}

/// Executable form of [`spec_window_kept`].
pub fn window_kept(w: &WindowInfo) -> (r: bool)
    ensures
        r == spec_window_kept(*w),
{
    w.width > 0 && w.height > 0 && !str_contains(w.title.as_str(), "JustSnap") && !str_contains(
        w.title.as_str(),
        "justsnap",
    )
}

/// Filters one enumeration pass for the selection UI: exactly the
/// kept windows, in enumeration order.
pub fn filter_window_infos(windows: &Vec<WindowInfo>) -> (out: Vec<WindowInfo>)
    ensures
        out@ == windows@.filter(|w: WindowInfo| spec_window_kept(w)),
{
    let n = windows.len();
    let mut out: Vec<WindowInfo> = Vec::new();
    let mut i: usize = 0;
    while i < n
        invariant
            n == windows@.len(),
            i <= n,
            out@ == windows@.take(i as int).filter(|w: WindowInfo| spec_window_kept(w)),
        decreases n - i,
    {
        proof {
            reveal(Seq::filter);
            assert(windows@.take(i + 1).drop_last() =~= windows@.take(i as int));
            assert(windows@.take(i + 1).last() == windows@[i as int]);
        }
        if window_kept(&windows[i]) {
            out.push(windows[i].clone());
        }
        i = i + 1;
    }
    proof {
        assert(windows@.take(n as int) =~= windows@);
    }
    out
}

} // verus!
