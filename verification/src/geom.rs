//! Geometry primitives: sphere-overlap and ray-sphere intersection tests.
//!
//! Both are exact: the real-valued comparisons they stand for are invariant
//! under scaling and under the length of the ray direction, so clearing
//! denominators turns them into integer comparisons with the same truth
//! value.

use crate::math::{gv, lemma_mul_bounds, vec_in_range, GVec3, Vec3, COORD_LIMIT};
use vstd::prelude::*;

verus! {

/// Largest radius the geometric tests accept (a thousand length units).
pub const RADIUS_LIMIT: i64 = 1_000_000;

pub open spec fn g_sub(a: GVec3, b: GVec3) -> GVec3 {
    GVec3 { x: a.x - b.x, y: a.y - b.y, z: a.z - b.z }
}

pub open spec fn g_dot(a: GVec3, b: GVec3) -> int {
    a.x * b.x + a.y * b.y + a.z * b.z
}

/// Squared distance between two points.
pub open spec fn dist_sq(a: GVec3, b: GVec3) -> int {
    g_dot(g_sub(a, b), g_sub(a, b))
}

/// The sphere-overlap rule: squared centre distance strictly below
/// `2 * radius^2`.  This is looser than the physical touching distance
/// `(2 * radius)^2` and is kept exactly as the interaction engine uses it.
pub open spec fn spec_sphere_overlap(a: GVec3, b: GVec3, radius: int) -> bool {
    dist_sq(a, b) < 2 * (radius * radius)
}

/// The ray's closest approach to the centre is within the radius.  With
/// `l = center - origin` and an unnormalized direction `d`, the squared
/// perpendicular distance is `l.l - (l.d)^2 / d.d`; multiplying through by
/// `d.d` gives this exact integer form.
pub open spec fn closest_approach_within(
    center: GVec3,
    radius: int,
    origin: GVec3,
    dir: GVec3,
) -> bool {
    dist_sq(center, origin) * g_dot(dir, dir) - g_dot(g_sub(center, origin), dir) * g_dot(
        g_sub(center, origin),
        dir,
    ) <= (radius * radius) * g_dot(dir, dir)
}

/// At least one intersection parameter is non-negative.  The larger root is
/// `t1 = l.d + sqrt(r^2 - perp^2)`, so `t1 >= 0` exactly when the projection
/// `l.d` is non-negative or the origin lies inside (or on) the sphere.
pub open spec fn some_param_nonneg(center: GVec3, radius: int, origin: GVec3, dir: GVec3) -> bool {
    g_dot(g_sub(center, origin), dir) >= 0 || dist_sq(center, origin) <= radius * radius
}

/// A ray hits a sphere when its direction is non-degenerate, the closest
/// approach to the centre is within the radius, and at least one
/// intersection parameter is non-negative.  A zero direction (the policy a
/// zero-length normalization yields) never hits.
pub open spec fn spec_ray_hit(center: GVec3, radius: int, origin: GVec3, dir: GVec3) -> bool {
    g_dot(dir, dir) > 0 && closest_approach_within(center, radius, origin, dir)
        && some_param_nonneg(center, radius, origin, dir)
}

/// Sphere-overlap test between two centres sharing one radius.
pub fn sphere_overlap(a: &Vec3, b: &Vec3, radius: i64) -> (r: bool)
    requires
        vec_in_range(*a, COORD_LIMIT as int),
        vec_in_range(*b, COORD_LIMIT as int),
        0 <= radius <= RADIUS_LIMIT,
    ensures
        r == spec_sphere_overlap(gv(*a), gv(*b), radius as int),
{
    let dx = a.x as i128 - b.x as i128;
    let dy = a.y as i128 - b.y as i128;
    let dz = a.z as i128 - b.z as i128;
    proof {
        lemma_mul_bounds(dx as int, dx as int, 1_000_000_000, 1_000_000_000);
        lemma_mul_bounds(dy as int, dy as int, 1_000_000_000, 1_000_000_000);
        lemma_mul_bounds(dz as int, dz as int, 1_000_000_000, 1_000_000_000);
        lemma_mul_bounds(radius as int, radius as int, RADIUS_LIMIT as int, RADIUS_LIMIT as int);
    }
    let d2 = dx * dx + dy * dy + dz * dz;
    let r2 = (radius as i128) * (radius as i128);
    d2 < 2 * r2
}

/// Ray-sphere intersection test; the direction need not be normalized, and
/// a zero direction yields `false`.
pub fn ray_sphere_intersection(center: &Vec3, radius: i64, ray_origin: &Vec3, ray_dir: &Vec3) -> (r:
    bool)
    requires
        vec_in_range(*center, COORD_LIMIT as int),
        vec_in_range(*ray_origin, COORD_LIMIT as int),
        vec_in_range(*ray_dir, COORD_LIMIT as int),
        0 <= radius <= RADIUS_LIMIT,
    ensures
        r == spec_ray_hit(gv(*center), radius as int, gv(*ray_origin), gv(*ray_dir)),
{
    let lx = center.x as i128 - ray_origin.x as i128;
    let ly = center.y as i128 - ray_origin.y as i128;
    let lz = center.z as i128 - ray_origin.z as i128;
    let dx = ray_dir.x as i128;
    let dy = ray_dir.y as i128;
    let dz = ray_dir.z as i128;
    proof {
        lemma_mul_bounds(lx as int, lx as int, 1_000_000_000, 1_000_000_000);
        lemma_mul_bounds(ly as int, ly as int, 1_000_000_000, 1_000_000_000);
        lemma_mul_bounds(lz as int, lz as int, 1_000_000_000, 1_000_000_000);
        lemma_mul_bounds(dx as int, dx as int, 1_000_000_000, 1_000_000_000);
        lemma_mul_bounds(dy as int, dy as int, 1_000_000_000, 1_000_000_000);
        lemma_mul_bounds(dz as int, dz as int, 1_000_000_000, 1_000_000_000);
        lemma_mul_bounds(lx as int, dx as int, 1_000_000_000, 1_000_000_000);
        lemma_mul_bounds(ly as int, dy as int, 1_000_000_000, 1_000_000_000);
        lemma_mul_bounds(lz as int, dz as int, 1_000_000_000, 1_000_000_000);
        lemma_mul_bounds(radius as int, radius as int, RADIUS_LIMIT as int, RADIUS_LIMIT as int);
    }
    let ll = lx * lx + ly * ly + lz * lz;
    let dd = dx * dx + dy * dy + dz * dz;
    let adj = lx * dx + ly * dy + lz * dz;
    let r2 = (radius as i128) * (radius as i128);
    if dd <= 0 {
        return false;
    }
    proof {
        lemma_mul_bounds(ll as int, dd as int, 3_000_000_000_000_000_000, 3_000_000_000_000_000_000);
        lemma_mul_bounds(
            adj as int,
            adj as int,
            3_000_000_000_000_000_000,
            3_000_000_000_000_000_000,
        );
        lemma_mul_bounds(r2 as int, dd as int, 1_000_000_000_000, 3_000_000_000_000_000_000);
    }
    // perpendicular distance beyond the radius: no intersection
    if ll * dd - adj * adj > r2 * dd {
        return false;
    }
    // both intersection parameters negative: sphere entirely behind the ray
    if adj < 0 && ll > r2 {
        return false;
    }
    true
}

/// Law: wherever the squared centre distance reaches `2 * radius^2` — on the
/// boundary included — the spheres do not overlap; the threshold is a strict
/// inequality.
pub proof fn lemma_sphere_overlap_threshold(a: GVec3, b: GVec3, radius: int)
    requires
        dist_sq(a, b) >= 2 * (radius * radius),
    ensures
        !spec_sphere_overlap(a, b, radius),
{
}

/// Law: a ray whose origin is strictly outside the sphere and which points
/// away from it (non-positive projection of the centre offset on the
/// direction, both roots negative) misses.
pub proof fn lemma_ray_pointing_away_misses(center: GVec3, radius: int, origin: GVec3, dir: GVec3)
    requires
        g_dot(g_sub(center, origin), dir) < 0,
        dist_sq(center, origin) > radius * radius,
    ensures
        !spec_ray_hit(center, radius, origin, dir),
{
}

} // verus!
