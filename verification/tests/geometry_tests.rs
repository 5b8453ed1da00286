use pong_core::geometry::Rect;

#[test]
fn rect_new_sets_fields() {
    let r = Rect::new(1, 2, 3, 4);
    assert_eq!((r.x, r.y, r.w, r.h), (1, 2, 3, 4));
}

#[test]
fn overlapping_rectangles_intersect() {
    let a = Rect::new(0, 0, 10, 10);
    let b = Rect::new(5, 5, 10, 10);
    assert!(a.intersects(&b));
    assert!(b.intersects(&a));
}

#[test]
fn touching_edges_count_as_intersection() {
    let a = Rect::new(0, 0, 10, 10);
    let b = Rect::new(10, 0, 10, 10);
    assert!(a.intersects(&b));
    let c = Rect::new(0, 10, 10, 10);
    assert!(a.intersects(&c));
}

#[test]
fn separated_rectangles_do_not_intersect() {
    let a = Rect::new(0, 0, 10, 10);
    let b = Rect::new(11, 0, 10, 10);
    assert!(!a.intersects(&b));
    let c = Rect::new(0, -20, 10, 9);
    assert!(!a.intersects(&c));
}

#[test]
fn containment_is_intersection() {
    let outer = Rect::new(0, 0, 100, 100);
    let inner = Rect::new(40, 40, 5, 5);
    assert!(outer.intersects(&inner));
    assert!(inner.intersects(&outer));
}
