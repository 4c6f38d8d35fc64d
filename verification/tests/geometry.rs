use xr_core::geom::{ray_sphere_intersection, sphere_overlap};
use xr_core::math::Vec3;

fn v(x: i64, y: i64, z: i64) -> Vec3 {
    Vec3 { x, y, z }
}

#[test]
fn sphere_overlap_within_threshold() {
    // distance 0.05 against radius 0.1: squared distance 2500 < 2 * 100^2
    assert!(sphere_overlap(&v(50, 0, 0), &v(0, 0, 0), 100));
}

#[test]
fn sphere_overlap_false_on_boundary() {
    // squared distance exactly 2 * radius^2 = 20000: strict inequality fails
    assert!(!sphere_overlap(&v(100, 100, 0), &v(0, 0, 0), 100));
}

#[test]
fn sphere_overlap_false_beyond_threshold() {
    assert!(!sphere_overlap(&v(200, 0, 0), &v(0, 0, 0), 100));
}

#[test]
fn sphere_overlap_looser_than_touching() {
    // distance 0.141 (squared 19881) is nearly 0.1 + 0.1 apart, yet the
    // threshold 2 * r^2 = 20000 still reports an overlap
    assert!(sphere_overlap(&v(141, 0, 0), &v(0, 0, 0), 100));
}

#[test]
fn ray_hits_sphere_ahead() {
    // sphere 5 units straight ahead along -Z
    assert!(ray_sphere_intersection(&v(0, 0, -5000), 100, &v(0, 0, 0), &v(0, 0, -1000)));
}

#[test]
fn ray_pointing_away_misses() {
    // sphere on the ray's line but behind the origin: both roots negative
    assert!(!ray_sphere_intersection(&v(0, 0, -5000), 100, &v(0, 0, 0), &v(0, 0, 1000)));
}

#[test]
fn ray_outside_radius_misses() {
    // perpendicular offset 0.2 exceeds the radius 0.1
    assert!(!ray_sphere_intersection(&v(200, 0, -5000), 100, &v(0, 0, 0), &v(0, 0, -1000)));
}

#[test]
fn ray_grazing_within_radius_hits() {
    // perpendicular offset 0.05 is within the radius 0.1
    assert!(ray_sphere_intersection(&v(50, 0, -5000), 100, &v(0, 0, 0), &v(0, 0, -1000)));
}

#[test]
fn ray_zero_direction_misses() {
    // the zero-length-normalize policy: a zero direction never hits
    assert!(!ray_sphere_intersection(&v(0, 0, -50), 100, &v(0, 0, 0), &v(0, 0, 0)));
}

#[test]
fn ray_origin_inside_sphere_hits() {
    // origin on the sphere: the forward root is non-negative
    assert!(ray_sphere_intersection(&v(0, 0, -100), 100, &v(0, 0, 0), &v(0, 0, 1000)));
}
