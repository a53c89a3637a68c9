use gladius_gui::geom::{ray_point, tri_hit, Vec3};
use gladius_gui::object::AABB;

fn v(x: i64, y: i64, z: i64) -> Vec3 {
    Vec3::new(x, y, z)
}

// A unit triangle, modelled at ten fixed-point units per model unit, hit
// straight down from above: the parameter is exactly one and the hit point
// is exactly (0.2, 0.2, 0).
#[test]
fn unit_triangle_straight_hit() {
    let v0 = v(0, 0, 0);
    let v1 = v(10, 0, 0);
    let v2 = v(0, 10, 0);
    let o = v(2, 2, 10);
    let d = v(0, 0, -10);
    let hit = tri_hit(o, d, v0, v1, v2).expect("ray must hit the triangle");
    // t == 1 exactly, as a ratio
    assert_eq!(hit.0, hit.1);
    let p = ray_point(o, d, hit.0, hit.1);
    assert_eq!(p, v(2, 2, 0));
}

// A ray parallel to the triangle plane reports no intersection.
#[test]
fn unit_triangle_parallel_ray_misses() {
    let v0 = v(0, 0, 0);
    let v1 = v(10, 0, 0);
    let v2 = v(0, 10, 0);
    let o = v(2, 2, 0);
    let d = v(10, 0, 0);
    assert!(tri_hit(o, d, v0, v1, v2).is_none());
}

// A hit behind the ray origin is rejected.
#[test]
fn triangle_behind_origin_misses() {
    let v0 = v(0, 0, 0);
    let v1 = v(10, 0, 0);
    let v2 = v(0, 10, 0);
    let o = v(2, 2, 10);
    let d = v(0, 0, 10);
    assert!(tri_hit(o, d, v0, v1, v2).is_none());
}

// Barycentric rejection: a ray that passes the triangle's plane outside
// the triangle itself.
#[test]
fn triangle_outside_barycentric_misses() {
    let v0 = v(0, 0, 0);
    let v1 = v(10, 0, 0);
    let v2 = v(0, 10, 0);
    let o = v(8, 8, 10);
    let d = v(0, 0, -10);
    assert!(tri_hit(o, d, v0, v1, v2).is_none());
}

fn unit_box() -> AABB {
    AABB { min_x: 0, min_y: 0, min_z: 0, max_x: 10, max_y: 10, max_z: 10 }
}

#[test]
fn aabb_straight_hit() {
    let b = unit_box();
    assert!(b.intersect_with_ray(v(5, 5, 20), v(0, 0, -1)));
}

#[test]
fn aabb_box_behind_ray() {
    let b = unit_box();
    assert!(!b.intersect_with_ray(v(5, 5, 20), v(0, 0, 1)));
}

#[test]
fn aabb_ray_beside_box() {
    let b = unit_box();
    assert!(!b.intersect_with_ray(v(50, 50, 20), v(0, 0, -1)));
}

#[test]
fn aabb_diagonal_hit() {
    let b = unit_box();
    assert!(b.intersect_with_ray(v(-10, -10, -10), v(1, 1, 1)));
}

#[test]
fn aabb_flat_axis_origin_inside_slab() {
    let b = unit_box();
    // direction has a zero x component and the origin's x is inside [0, 10]
    assert!(b.intersect_with_ray(v(5, 5, 20), v(0, 1, -2)));
    // origin's x outside the slab with a zero x direction: unreachable
    assert!(!b.intersect_with_ray(v(20, 5, 20), v(0, 1, -2)));
}

#[test]
fn aabb_origin_inside_box_hits() {
    let b = unit_box();
    assert!(b.intersect_with_ray(v(5, 5, 5), v(1, 0, 0)));
}

// The inverted sentinel box that stands for an empty mesh intersects
// nothing.
#[test]
fn aabb_empty_box_misses_everything() {
    let b = AABB {
        min_x: i64::MAX,
        min_y: i64::MAX,
        min_z: i64::MAX,
        max_x: i64::MIN,
        max_y: i64::MIN,
        max_z: i64::MIN,
    };
    assert!(!b.intersect_with_ray(v(0, 0, 0), v(1, 1, 1)));
    assert!(!b.intersect_with_ray(v(5, 5, 20), v(0, 0, -1)));
}
