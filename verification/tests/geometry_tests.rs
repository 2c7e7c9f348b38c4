//! Tests for the rectangle collision primitive.

use rust_mario::geometry::Platform;

#[test]
fn test_intersects_symmetric_concrete() {
    let a = Platform::new(0, 0, 10_000, 10_000);
    let b = Platform::new(5_000, 5_000, 10_000, 10_000);
    // Overlapping: both directions agree.
    assert!(a.intersects(5_000, 5_000, 10_000, 10_000));
    assert!(b.intersects(0, 0, 10_000, 10_000));
    // Disjoint: both directions agree.
    let c = Platform::new(50_000, 50_000, 10_000, 10_000);
    assert!(!a.intersects(50_000, 50_000, 10_000, 10_000));
    assert!(!c.intersects(0, 0, 10_000, 10_000));
}

#[test]
fn test_edge_touch_platforms_do_not_intersect() {
    // Two platforms placed exactly edge-to-edge at the same y and height:
    // the zero-width touch must not count as an intersection.
    let left = Platform::new(0, 0, 10_000, 20_000);
    let right = Platform::new(10_000, 0, 10_000, 20_000);
    assert!(!left.intersects(10_000, 0, 10_000, 20_000));
    assert!(!right.intersects(0, 0, 10_000, 20_000));
}

#[test]
fn test_contains_point_inclusive() {
    let p = Platform::new(0, 0, 10_000, 10_000);
    assert!(p.contains_point(0, 0));
    assert!(p.contains_point(10_000, 10_000));
    assert!(p.contains_point(5_000, 5_000));
    assert!(p.contains_point(10_000, 0));
    assert!(!p.contains_point(10_001, 5_000));
    assert!(!p.contains_point(-1, 0));
}

#[test]
fn test_intersects_strict_but_contains_inclusive() {
    // The boundary point is inside, yet a rectangle that only touches the
    // boundary does not intersect: the asymmetry is deliberate.
    let p = Platform::new(0, 0, 10_000, 10_000);
    assert!(p.contains_point(10_000, 5_000));
    assert!(!p.intersects(10_000, 0, 5_000, 10_000));
}
