use justsnap::errors::CaptureError;
use justsnap::monitor::{Monitor, monitor_index_at_point};
use justsnap::region::{CaptureRegion, resolve};

fn monitor(id: u32, x: i32, y: i32, width: u32, height: u32, is_primary: bool) -> Monitor {
    Monitor { id, name: format!("monitor-{}", id), x, y, width, height, is_primary }
}

fn two_monitor_layout() -> Vec<Monitor> {
    // Primary at the origin, a second monitor directly to its right.
    vec![monitor(1, 0, 0, 1920, 1080, true), monitor(2, 1920, 0, 2560, 1440, false)]
}

#[test]
fn region_inside_second_monitor_resolves_to_it() {
    let monitors = two_monitor_layout();
    let region = CaptureRegion { x: 2000, y: 100, width: 300, height: 200 };
    let (idx, local) = resolve(&region, &monitors).unwrap();
    assert_eq!(idx, 1);
    assert_eq!(local.x, 80);
    assert_eq!(local.y, 100);
    assert_eq!(local.width, 300);
    assert_eq!(local.height, 200);
}

#[test]
fn region_inside_primary_resolves_untranslated() {
    let monitors = two_monitor_layout();
    let region = CaptureRegion { x: 10, y: 20, width: 100, height: 100 };
    let (idx, local) = resolve(&region, &monitors).unwrap();
    assert_eq!(idx, 0);
    assert_eq!(local.x, 10);
    assert_eq!(local.y, 20);
}

#[test]
fn center_on_shared_boundary_is_deterministic() {
    let monitors = two_monitor_layout();
    // Center lands exactly on x = 1920, the shared edge: half-open
    // containment assigns it to the right-hand monitor, every time.
    let region = CaptureRegion { x: 1820, y: 0, width: 200, height: 200 };
    let first = resolve(&region, &monitors).unwrap();
    assert_eq!(first.0, 1);
    for _ in 0..10 {
        let again = resolve(&region, &monitors).unwrap();
        assert_eq!(again.0, first.0);
        assert_eq!(again.1, first.1);
    }
}

#[test]
fn center_one_pixel_left_of_boundary_stays_left() {
    let monitors = two_monitor_layout();
    let region = CaptureRegion { x: 1819, y: 0, width: 200, height: 200 };
    let (idx, _) = resolve(&region, &monitors).unwrap();
    assert_eq!(idx, 0);
}

#[test]
fn region_outside_every_monitor_falls_back_to_primary() {
    let monitors = two_monitor_layout();
    let region = CaptureRegion { x: 100_000, y: 100_000, width: 50, height: 50 };
    let (idx, local) = resolve(&region, &monitors).unwrap();
    assert_eq!(idx, 0);
    assert_eq!(local.x, 100_000);
}

#[test]
fn no_monitors_fails_with_no_monitor_available() {
    let monitors: Vec<Monitor> = Vec::new();
    let region = CaptureRegion { x: 0, y: 0, width: 10, height: 10 };
    assert_eq!(resolve(&region, &monitors).unwrap_err(), CaptureError::NoMonitorAvailable);
}

#[test]
fn negative_coordinates_resolve_to_left_monitor() {
    let monitors =
        vec![monitor(1, 0, 0, 1920, 1080, true), monitor(2, -1920, 0, 1920, 1080, false)];
    let region = CaptureRegion { x: -1000, y: 100, width: 200, height: 200 };
    let (idx, local) = resolve(&region, &monitors).unwrap();
    assert_eq!(idx, 1);
    assert_eq!(local.x, 920);
    assert_eq!(local.y, 100);
}

#[test]
fn point_query_prefers_containing_monitor() {
    let monitors = two_monitor_layout();
    assert_eq!(monitor_index_at_point(&monitors, 2000, 10), Some(1));
    assert_eq!(monitor_index_at_point(&monitors, 10, 10), Some(0));
    // Outside both: the primary wins.
    assert_eq!(monitor_index_at_point(&monitors, -5, -5), Some(0));
}

#[test]
fn point_query_with_no_primary_and_no_hit_is_none() {
    let monitors = vec![monitor(7, 0, 0, 100, 100, false)];
    assert_eq!(monitor_index_at_point(&monitors, 500, 500), None);
}

#[test]
fn resolve_without_primary_or_containment_fails() {
    let monitors = vec![monitor(7, 0, 0, 100, 100, false)];
    let region = CaptureRegion { x: 500, y: 500, width: 10, height: 10 };
    assert_eq!(resolve(&region, &monitors).unwrap_err(), CaptureError::NoMonitorAvailable);
}

#[test]
fn overlapping_monitors_resolve_to_the_first_in_list_order() {
    let monitors =
        vec![monitor(1, 0, 0, 1000, 1000, true), monitor(2, 0, 0, 1000, 1000, false)];
    let region = CaptureRegion { x: 100, y: 100, width: 10, height: 10 };
    let (idx, _) = resolve(&region, &monitors).unwrap();
    assert_eq!(idx, 0);
}
