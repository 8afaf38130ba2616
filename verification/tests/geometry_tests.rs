use justsnap::geometry::{Rect, rectangles_intersect};

#[test]
fn edge_touching_rectangles_do_not_intersect() {
    let a = Rect::new(0, 0, 100, 100);
    let b = Rect::new(100, 0, 50, 50);
    assert!(!rectangles_intersect(&a, &b));
    assert!(!rectangles_intersect(&b, &a));
}

#[test]
fn overlapping_rectangles_intersect() {
    let a = Rect::new(0, 0, 100, 100);
    let b = Rect::new(99, 0, 50, 50);
    assert!(rectangles_intersect(&a, &b));
    assert!(rectangles_intersect(&b, &a));
}

#[test]
fn vertical_edge_touch_does_not_intersect() {
    let a = Rect::new(0, 0, 100, 100);
    let b = Rect::new(0, 100, 100, 100);
    assert!(!rectangles_intersect(&a, &b));
    let c = Rect::new(0, 99, 100, 100);
    assert!(rectangles_intersect(&a, &c));
}

#[test]
fn containment_is_half_open() {
    let r = Rect::new(10, 20, 30, 40);
    assert!(r.contains_point(10, 20));
    assert!(r.contains_point(39, 59));
    assert!(!r.contains_point(40, 20));
    assert!(!r.contains_point(10, 60));
    assert!(!r.contains_point(9, 20));
}

#[test]
fn negative_origin_containment() {
    let r = Rect::new(-1920, -100, 1920, 1080);
    assert!(r.contains_point(-1920, -100));
    assert!(r.contains_point(-1, 979));
    assert!(!r.contains_point(0, 0));
}

#[test]
fn zero_sized_rectangle_contains_nothing() {
    let r = Rect::new(5, 5, 0, 0);
    assert!(!r.contains_point(5, 5));
    // On another rectangle's corner the strict inequalities fail.
    let corner = Rect::new(0, 0, 5, 5);
    assert!(!rectangles_intersect(&r, &corner));
}
