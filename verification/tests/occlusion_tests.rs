use justsnap::geometry::Rect;
use justsnap::occlusion::{
    WindowRecord, ZOrderSource, assign_z_orders, excluded_by_name, hit_test, is_occluded,
    window_at_point,
};

fn window(id: u32, title: &str, x: i32, y: i32, w: u32, h: u32, z: i32) -> WindowRecord {
    WindowRecord {
        id,
        title: title.to_string(),
        app_name: format!("app-{}", id),
        rect: Rect { x, y, width: w, height: h },
        z_order: z,
        is_minimized: false,
    }
}

#[test]
fn occluded_inner_window_yields_none() {
    // A (z 0) covers 0,0..200,200; B (z 1) sits fully inside it.  A
    // point inside B resolves to no window: B is occluded by A's
    // superior z-order and overlapping rectangle, regardless of which
    // rectangle contains the point.
    let a = window(1, "editor", 0, 0, 200, 200, 0);
    let b = window(2, "palette", 50, 50, 50, 50, 1);
    let windows = vec![a, b];
    assert!(window_at_point(&windows, 60, 60).is_none());
}

#[test]
fn unobstructed_window_is_returned() {
    let a = window(1, "editor", 0, 0, 200, 200, 0);
    let windows = vec![a];
    let found = window_at_point(&windows, 60, 60).unwrap();
    assert_eq!(found.id, 1);
    assert_eq!(found.z_order, 0);
}

#[test]
fn point_hitting_no_window_yields_none() {
    let a = window(1, "editor", 0, 0, 200, 200, 0);
    let windows = vec![a];
    assert!(window_at_point(&windows, 1000, 1000).is_none());
    let empty: Vec<WindowRecord> = Vec::new();
    assert!(window_at_point(&empty, 0, 0).is_none());
}

#[test]
fn program_manager_is_never_selected() {
    let shell = window(1, "Program Manager", 0, 0, 4000, 4000, 5);
    let windows = vec![shell];
    assert!(window_at_point(&windows, 100, 100).is_none());
}

#[test]
fn default_ime_is_never_selected() {
    let ime = window(1, "Default IME", 0, 0, 400, 400, 0);
    let windows = vec![ime];
    assert!(window_at_point(&windows, 100, 100).is_none());
}

#[test]
fn overlay_titles_are_excluded() {
    let w = window(1, "screen overlay helper", 0, 0, 400, 400, 0);
    assert!(excluded_by_name(&w));
    let plain = window(2, "documents", 0, 0, 400, 400, 0);
    assert!(!excluded_by_name(&plain));
}

#[test]
fn own_tool_windows_are_excluded() {
    let by_title = window(1, "JustSnap Sticky", 0, 0, 400, 400, 0);
    assert!(excluded_by_name(&by_title));
    let mut by_app = window(2, "notes", 0, 0, 400, 400, 0);
    by_app.app_name = "justsnap".to_string();
    assert!(excluded_by_name(&by_app));
}

#[test]
fn edge_touching_window_above_does_not_occlude() {
    // The half-open rule: a window that only touches the candidate's
    // edge from above in z-order does not reject it.
    let above = window(1, "left pane", 0, 0, 100, 200, 0);
    let candidate = window(2, "right pane", 100, 0, 100, 200, 1);
    let windows = vec![above, candidate];
    assert!(!is_occluded(&windows, 1));
    let found = window_at_point(&windows, 150, 50).unwrap();
    assert_eq!(found.id, 2);
}

#[test]
fn minimized_windows_neither_occlude_nor_match() {
    let mut top = window(1, "minimized app", 0, 0, 300, 300, 0);
    top.is_minimized = true;
    let below = window(2, "visible app", 0, 0, 300, 300, 1);
    let windows = vec![top, below];
    let found = window_at_point(&windows, 10, 10).unwrap();
    assert_eq!(found.id, 2);
}

#[test]
fn hit_test_picks_the_innermost_window() {
    let big = window(1, "desktop background", 0, 0, 1000, 1000, 2);
    let small = window(2, "dialog", 100, 100, 200, 200, 1);
    let windows = vec![big, small];
    assert_eq!(hit_test(&windows, 150, 150), Some(1));
    assert_eq!(hit_test(&windows, 500, 500), Some(0));
}

#[test]
fn zero_sized_windows_are_ignored() {
    let ghost = window(1, "ghost", 0, 0, 0, 0, 0);
    let real = window(2, "real", 0, 0, 100, 100, 1);
    let windows = vec![ghost, real];
    let found = window_at_point(&windows, 10, 10).unwrap();
    assert_eq!(found.id, 2);
}

#[test]
fn fallback_z_orders_follow_enumeration_order() {
    let rows = vec![
        window(1, "first", 0, 0, 10, 10, 99),
        window(2, "second", 0, 0, 10, 10, -3),
        window(3, "third", 0, 0, 10, 10, 42),
    ];
    let ranked = assign_z_orders(&rows, ZOrderSource::EnumerationOrderFallback);
    let zs: Vec<i32> = ranked.iter().map(|w| w.z_order).collect();
    assert_eq!(zs, vec![0, 1, 2]);
    for (before, after) in rows.iter().zip(ranked.iter()) {
        assert_eq!(before.id, after.id);
        assert_eq!(before.title, after.title);
    }
}

#[test]
fn equal_areas_tie_break_toward_the_viewer() {
    let far = window(1, "far", 0, 0, 100, 100, 5);
    let near = window(2, "near", 0, 0, 100, 100, 2);
    let windows = vec![far, near];
    // Same area and both contain the point: the rank nearer the
    // viewer wins the hit test, and only the window underneath
    // overlaps it, so it is unobstructed.
    assert_eq!(hit_test(&windows, 50, 50), Some(1));
    assert_eq!(window_at_point(&windows, 50, 50).unwrap().id, 2);
}

#[test]
fn excluded_candidate_is_not_replaced_by_another_window() {
    // The name filter rejects the candidate outright; the query does
    // not fall through to the window underneath.
    let overlay = window(1, "selection overlay", 100, 100, 50, 50, 0);
    let beneath = window(2, "editor", 0, 0, 400, 400, 1);
    let windows = vec![overlay, beneath];
    assert!(window_at_point(&windows, 120, 120).is_none());
}

#[test]
fn native_z_orders_are_kept() {
    let rows = vec![window(1, "first", 0, 0, 10, 10, 7), window(2, "second", 0, 0, 10, 10, 3)];
    let ranked = assign_z_orders(&rows, ZOrderSource::NativeZOrder);
    assert_eq!(ranked[0].z_order, 7);
    assert_eq!(ranked[1].z_order, 3);
}
