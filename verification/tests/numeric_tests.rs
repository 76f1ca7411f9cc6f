use render_core::geometry::Bounds;
use render_core::numeric::{cos_milli, isqrt64, normalize_degrees, sin_milli};

#[test]
fn integer_square_roots_are_exact() {
    assert_eq!(isqrt64(0), 0);
    assert_eq!(isqrt64(1), 1);
    assert_eq!(isqrt64(3), 1);
    assert_eq!(isqrt64(4), 2);
    assert_eq!(isqrt64(99), 9);
    assert_eq!(isqrt64(100), 10);
    assert_eq!(isqrt64(20000), 141);
    assert_eq!(isqrt64(1 << 50), 1 << 25);
}

#[test]
fn sine_hits_cardinal_points() {
    assert_eq!(sin_milli(0), 0);
    assert_eq!(sin_milli(90), 1000);
    assert_eq!(sin_milli(180), 0);
    assert_eq!(sin_milli(270), -1000);
    assert_eq!(cos_milli(0), 1000);
    assert_eq!(cos_milli(90), 0);
    assert_eq!(cos_milli(180), -1000);
}

#[test]
fn sine_at_thirty_degrees_is_half() {
    // The rational approximation is exact at thirty degrees.
    assert_eq!(sin_milli(30), 500);
    assert_eq!(sin_milli(150), 500);
    assert_eq!(sin_milli(210), -500);
}

#[test]
fn degrees_normalize_into_one_turn() {
    assert_eq!(normalize_degrees(0), 0);
    assert_eq!(normalize_degrees(360), 0);
    assert_eq!(normalize_degrees(-90), 270);
    assert_eq!(normalize_degrees(725), 5);
    assert_eq!(normalize_degrees(-725), 355);
}

#[test]
fn intersection_is_open_at_edges() {
    let a = Bounds::new(0, 0, 10, 10);
    let touching = Bounds::new(10, 0, 10, 10);
    let overlapping = Bounds::new(9, 9, 10, 10);
    let inside = Bounds::new(2, 2, 2, 2);
    let empty_inside = Bounds::new(5, 5, 0, 0);
    let empty_outside = Bounds::new(15, 15, 0, 0);
    assert!(!a.intersects(&touching));
    assert!(!touching.intersects(&a));
    assert!(a.intersects(&overlapping));
    assert!(a.intersects(&inside));
    // A degenerate rectangle strictly inside still counts as overlap, so
    // culling stays conservative; one outside does not.
    assert!(a.intersects(&empty_inside));
    assert!(!a.intersects(&empty_outside));
}
