//! Fixed-point scalars, vectors, quaternions and rigid transforms.
//!
//! A scalar holds a real value multiplied by [`SCALE`]: positions and
//! translations are in thousandths of a length unit, quaternion components
//! in thousandths of one.  All operations are exact integer arithmetic; the
//! two rotation products divide by the scale with flooring division, which
//! is the rounding this library fixes once and states in every contract.

use vstd::arithmetic::div_mod::{
    lemma_div_is_ordered, lemma_div_multiples_vanish, lemma_fundamental_div_mod,
    lemma_fundamental_div_mod_converse, lemma_mod_bound,
};
use vstd::prelude::*;

verus! {

/// Fixed-point scale: the integer 1000 stands for the real number one.
pub const SCALE: i64 = 1000;

/// `SCALE * SCALE`, the denominator left by one quaternion-vector rotation.
pub const SCALE_SQ: i64 = 1_000_000;

/// Largest magnitude accepted for a position or translation coordinate
/// (10^7 = ten thousand length units).
pub const POS_LIMIT: i64 = 10_000_000;

/// Magnitude bound guaranteed for a coordinate produced by rotating a
/// position bounded by [`POS_LIMIT`]: `14 * POS_LIMIT`.
pub const ROT_LIMIT: i64 = 140_000_000;

/// Largest coordinate magnitude the geometric tests accept; every vector the
/// transform functions can produce stays well inside it.
pub const COORD_LIMIT: i64 = 500_000_000;

/// A fixed-point three-component vector.
#[derive(Clone, Copy, PartialEq, Eq, Structural, Debug)]
pub struct Vec3 {
    pub x: i64,
    pub y: i64,
    pub z: i64,
}

/// A fixed-point quaternion; a rotation is a quaternion on the unit ball,
/// so each component lies in `[-SCALE, SCALE]`.
#[derive(Clone, Copy, PartialEq, Eq, Structural, Debug)]
pub struct Quat {
    pub x: i64,
    pub y: i64,
    pub z: i64,
    pub w: i64,
}

/// A rigid pose: rotation followed by translation.
#[derive(Clone, Copy, PartialEq, Eq, Structural, Debug)]
pub struct Transform {
    pub rotation: Quat,
    pub translation: Vec3,
}

/// The identity pose as a specification value.
pub open spec fn identity_transform() -> Transform {
    Transform {
        rotation: Quat { x: 0, y: 0, z: 0, w: SCALE },
        translation: Vec3 { x: 0, y: 0, z: 0 },
    }
}

impl Transform {
    /// The identity pose: unit rotation, zero translation.
    pub fn identity() -> (r: Transform)
        ensures
            r == identity_transform(),
            transform_wf(r),
    {
        Transform {
            rotation: Quat { x: 0, y: 0, z: 0, w: SCALE },
            translation: Vec3 { x: 0, y: 0, z: 0 },
        }
    }
}

pub open spec fn in_range(c: int, b: int) -> bool {
    -b <= c <= b
}

pub open spec fn vec_in_range(v: Vec3, b: int) -> bool {
    in_range(v.x as int, b) && in_range(v.y as int, b) && in_range(v.z as int, b)
}

/// A quaternion this library treats as a rotation: inside the unit ball.
pub open spec fn quat_wf(q: Quat) -> bool {
    in_range(q.x as int, SCALE as int) && in_range(q.y as int, SCALE as int) && in_range(
        q.z as int,
        SCALE as int,
    ) && in_range(q.w as int, SCALE as int)
}

/// A transform whose rotation is well formed and whose translation is a
/// position this library accepts.
pub open spec fn transform_wf(t: Transform) -> bool {
    quat_wf(t.rotation) && vec_in_range(t.translation, POS_LIMIT as int)
}

/// `|a * b| <= aa * bb` whenever `|a| <= aa` and `|b| <= bb`.
pub proof fn lemma_mul_bounds(a: int, b: int, aa: int, bb: int)
    by (nonlinear_arith)
    requires
        0 <= aa,
        0 <= bb,
        -aa <= a <= aa,
        -bb <= b <= bb,
    ensures
        -(aa * bb) <= a * b <= aa * bb,
{
}

/// Flooring division of a bounded `i128` by a positive divisor, matching the
/// Euclidean `/` of specifications.
fn div_floor(a: i128, d: i128, Ghost(n): Ghost<int>) -> (r: i128)
    requires
        1 <= d,
        0 <= n,
        n * d < 0x7fff_ffff_ffff_ffff_ffff_ffff_ffff_ffff,
        -(n * d) <= a <= n * d,
    ensures
        r == a as int / d as int,
        -n <= r <= n,
{
    proof {
        lemma_mul_bounds(n, d as int, n, d as int);
        assert(n <= n * d) by (nonlinear_arith)
            requires
                0 <= n && 1 <= d,
        ;
    }
    if a >= 0 {
        let q = (a as u128) / (d as u128);
        proof {
            assert(n * d == d * n) by (nonlinear_arith);
            lemma_div_is_ordered(a as int, n * d, d as int);
            lemma_div_multiples_vanish(n, d as int);
            lemma_div_is_ordered(0, a as int, d as int);
            lemma_div_multiples_vanish(0, d as int);
        }
        q as i128
    } else {
        proof {
            assert(d <= n * d) by (nonlinear_arith)
                requires
                    1 <= n && 1 <= d,
            ;
        }
        let na = (-a) as u128;
        let du = d as u128;
        let x = na + du - 1;
        let q = x / du;
        proof {
            let qi = x as int / d as int;
            let ri = x as int % d as int;
            lemma_fundamental_div_mod(x as int, d as int);
            lemma_mod_bound(x as int, d as int);
            // -na == (-qi) * d + (d - 1 - ri), with the remainder in [0, d)
            assert(a as int == (-qi) * (d as int) + (d - 1 - ri)) by (nonlinear_arith)
                requires
                    x as int == (d as int) * qi + ri && a as int == -(x as int) + (d as int) - 1,
            ;
            lemma_fundamental_div_mod_converse(a as int, d as int, -qi, d - 1 - ri);
            // qi <= n because x <= n * d + (d - 1)
            lemma_fundamental_div_mod_converse(n * d + d - 1, d as int, n, d - 1);
            lemma_div_is_ordered(x as int, n * d + d - 1, d as int);
            lemma_div_is_ordered(0, x as int, d as int);
            lemma_div_multiples_vanish(0, d as int);
        }
        -(q as i128)
    }
}

/// A vector of unbounded integers, the value a [`Vec3`] stands for in
/// specifications.
pub ghost struct GVec3 {
    pub x: int,
    pub y: int,
    pub z: int,
}

pub open spec fn gv(v: Vec3) -> GVec3 {
    GVec3 { x: v.x as int, y: v.y as int, z: v.z as int }
}

pub open spec fn quv_dot(q: Quat, v: GVec3) -> int {
    q.x * v.x + q.y * v.y + q.z * v.z
}

pub open spec fn ww_minus_uu(q: Quat) -> int {
    q.w * q.w - (q.x * q.x + q.y * q.y + q.z * q.z)
}

pub open spec fn ucv_x(q: Quat, v: GVec3) -> int {
    q.y * v.z - q.z * v.y
}

pub open spec fn ucv_y(q: Quat, v: GVec3) -> int {
    q.z * v.x - q.x * v.z
}

pub open spec fn ucv_z(q: Quat, v: GVec3) -> int {
    q.x * v.y - q.y * v.x
}

/// Numerator of one component of `q v q*`, the quaternion rotation formula
/// `(w^2 - u.u) v + 2 (u.v) u + 2 w (u x v)`, scaled by `SCALE^2`.
pub open spec fn rot_num_x(q: Quat, v: GVec3) -> int {
    2 * (quv_dot(q, v) * q.x) + ww_minus_uu(q) * v.x + 2 * (q.w * ucv_x(q, v))
}

pub open spec fn rot_num_y(q: Quat, v: GVec3) -> int {
    2 * (quv_dot(q, v) * q.y) + ww_minus_uu(q) * v.y + 2 * (q.w * ucv_y(q, v))
}

pub open spec fn rot_num_z(q: Quat, v: GVec3) -> int {
    2 * (quv_dot(q, v) * q.z) + ww_minus_uu(q) * v.z + 2 * (q.w * ucv_z(q, v))
}

/// Rotating `v` by `q` in fixed point: the exact rational result, rounded
/// once by flooring division by `SCALE^2`.
pub open spec fn spec_rotate(q: Quat, v: GVec3) -> GVec3 {
    GVec3 {
        x: rot_num_x(q, v) / ((SCALE * SCALE) as int),
        y: rot_num_y(q, v) / ((SCALE * SCALE) as int),
        z: rot_num_z(q, v) / ((SCALE * SCALE) as int),
    }
}

/// Rotates a vector by a quaternion; `b` bounds the input coordinates and
/// the result's are bounded by `14 * b`.
pub(crate) fn rotate_vec(q: &Quat, v: &Vec3, Ghost(b): Ghost<int>) -> (r: Vec3)
    requires
        quat_wf(*q),
        0 <= b <= POS_LIMIT as int,
        vec_in_range(*v, b),
    ensures
        gv(r) == spec_rotate(*q, gv(*v)),
        vec_in_range(r, 14 * b),
{
    let qx = q.x as i128;
    let qy = q.y as i128;
    let qz = q.z as i128;
    let qw = q.w as i128;
    let vx = v.x as i128;
    let vy = v.y as i128;
    let vz = v.z as i128;
    proof {
        lemma_mul_bounds(qx as int, vx as int, 1000, b);
        lemma_mul_bounds(qy as int, vy as int, 1000, b);
        lemma_mul_bounds(qz as int, vz as int, 1000, b);
        lemma_mul_bounds(qx as int, qx as int, 1000, 1000);
        lemma_mul_bounds(qy as int, qy as int, 1000, 1000);
        lemma_mul_bounds(qz as int, qz as int, 1000, 1000);
        lemma_mul_bounds(qw as int, qw as int, 1000, 1000);
        lemma_mul_bounds(qy as int, vz as int, 1000, b);
        lemma_mul_bounds(qz as int, vy as int, 1000, b);
        lemma_mul_bounds(qz as int, vx as int, 1000, b);
        lemma_mul_bounds(qx as int, vz as int, 1000, b);
        lemma_mul_bounds(qx as int, vy as int, 1000, b);
        lemma_mul_bounds(qy as int, vx as int, 1000, b);
    }
    let d: i128 = qx * vx + qy * vy + qz * vz;
    let s2u: i128 = qw * qw - (qx * qx + qy * qy + qz * qz);
    let cx: i128 = qy * vz - qz * vy;
    let cy: i128 = qz * vx - qx * vz;
    let cz: i128 = qx * vy - qy * vx;
    proof {
        lemma_mul_bounds(d as int, qx as int, 3000 * b, 1000);
        lemma_mul_bounds(d as int, qy as int, 3000 * b, 1000);
        lemma_mul_bounds(d as int, qz as int, 3000 * b, 1000);
        lemma_mul_bounds(s2u as int, vx as int, 4_000_000, b);
        lemma_mul_bounds(s2u as int, vy as int, 4_000_000, b);
        lemma_mul_bounds(s2u as int, vz as int, 4_000_000, b);
        lemma_mul_bounds(qw as int, cx as int, 1000, 2000 * b);
        lemma_mul_bounds(qw as int, cy as int, 1000, 2000 * b);
        lemma_mul_bounds(qw as int, cz as int, 1000, 2000 * b);
    }
    let dqx = d * qx;
    let dqy = d * qy;
    let dqz = d * qz;
    let svx = s2u * vx;
    let svy = s2u * vy;
    let svz = s2u * vz;
    let wcx = qw * cx;
    let wcy = qw * cy;
    let wcz = qw * cz;
    let nx: i128 = 2 * dqx + svx + 2 * wcx;
    let ny: i128 = 2 * dqy + svy + 2 * wcy;
    let nz: i128 = 2 * dqz + svz + 2 * wcz;
    proof {
        assert(d as int == quv_dot(*q, gv(*v)));
        assert(s2u as int == ww_minus_uu(*q));
        assert(cx as int == ucv_x(*q, gv(*v)));
        assert(nx as int == rot_num_x(*q, gv(*v)));
        assert(ny as int == rot_num_y(*q, gv(*v)));
        assert(nz as int == rot_num_z(*q, gv(*v)));
    }
    let rx = div_floor(nx, SCALE_SQ as i128, Ghost(14 * b));
    let ry = div_floor(ny, SCALE_SQ as i128, Ghost(14 * b));
    let rz = div_floor(nz, SCALE_SQ as i128, Ghost(14 * b));
    Vec3 { x: rx as i64, y: ry as i64, z: rz as i64 }
}

/// Numerators of the Hamilton product, scaled by `SCALE^2`.
pub open spec fn qmul_num_x(a: Quat, b: Quat) -> int {
    a.w * b.x + a.x * b.w + a.y * b.z - a.z * b.y
}

pub open spec fn qmul_num_y(a: Quat, b: Quat) -> int {
    a.w * b.y - a.x * b.z + a.y * b.w + a.z * b.x
}

pub open spec fn qmul_num_z(a: Quat, b: Quat) -> int {
    a.w * b.z + a.x * b.y - a.y * b.x + a.z * b.w
}

pub open spec fn qmul_num_w(a: Quat, b: Quat) -> int {
    a.w * b.w - a.x * b.x - a.y * b.y - a.z * b.z
}

/// The fixed-point Hamilton product, each component rounded once by
/// flooring division by `SCALE`.
pub open spec fn spec_quat_mul(a: Quat, b: Quat) -> Quat {
    Quat {
        x: (qmul_num_x(a, b) / (SCALE as int)) as i64,
        y: (qmul_num_y(a, b) / (SCALE as int)) as i64,
        z: (qmul_num_z(a, b) / (SCALE as int)) as i64,
        w: (qmul_num_w(a, b) / (SCALE as int)) as i64,
    }
}

pub fn quat_mul(a: &Quat, b: &Quat) -> (r: Quat)
    requires
        quat_wf(*a),
        quat_wf(*b),
    ensures
        r == spec_quat_mul(*a, *b),
        in_range(r.x as int, 4 * SCALE as int),
        in_range(r.y as int, 4 * SCALE as int),
        in_range(r.z as int, 4 * SCALE as int),
        in_range(r.w as int, 4 * SCALE as int),
{
    let ax = a.x as i128;
    let ay = a.y as i128;
    let az = a.z as i128;
    let aw = a.w as i128;
    let bx = b.x as i128;
    let by = b.y as i128;
    let bz = b.z as i128;
    let bw = b.w as i128;
    proof {
        lemma_mul_bounds(aw as int, bx as int, 1000, 1000);
        lemma_mul_bounds(ax as int, bw as int, 1000, 1000);
        lemma_mul_bounds(ay as int, bz as int, 1000, 1000);
        lemma_mul_bounds(az as int, by as int, 1000, 1000);
        lemma_mul_bounds(aw as int, by as int, 1000, 1000);
        lemma_mul_bounds(ax as int, bz as int, 1000, 1000);
        lemma_mul_bounds(ay as int, bw as int, 1000, 1000);
        lemma_mul_bounds(az as int, bx as int, 1000, 1000);
        lemma_mul_bounds(aw as int, bz as int, 1000, 1000);
        lemma_mul_bounds(ax as int, by as int, 1000, 1000);
        lemma_mul_bounds(ay as int, bx as int, 1000, 1000);
        lemma_mul_bounds(az as int, bw as int, 1000, 1000);
        lemma_mul_bounds(aw as int, bw as int, 1000, 1000);
        lemma_mul_bounds(ax as int, bx as int, 1000, 1000);
        lemma_mul_bounds(ay as int, by as int, 1000, 1000);
        lemma_mul_bounds(az as int, bz as int, 1000, 1000);
    }
    let nx: i128 = aw * bx + ax * bw + ay * bz - az * by;
    let ny: i128 = aw * by - ax * bz + ay * bw + az * bx;
    let nz: i128 = aw * bz + ax * by - ay * bx + az * bw;
    let nw: i128 = aw * bw - ax * bx - ay * by - az * bz;
    let rx = div_floor(nx, SCALE as i128, Ghost(4 * SCALE as int));
    let ry = div_floor(ny, SCALE as i128, Ghost(4 * SCALE as int));
    let rz = div_floor(nz, SCALE as i128, Ghost(4 * SCALE as int));
    let rw = div_floor(nw, SCALE as i128, Ghost(4 * SCALE as int));
    Quat { x: rx as i64, y: ry as i64, z: rz as i64, w: rw as i64 }
}

/// Composition of two rigid poses: rotate-then-translate of `b` expressed
/// in `a`'s frame, the root-relative composition the render-side sync uses.
pub open spec fn spec_mul_transform(a: Transform, b: Transform) -> Transform {
    Transform {
        rotation: spec_quat_mul(a.rotation, b.rotation),
        translation: Vec3 {
            x: (a.translation.x + spec_rotate(a.rotation, gv(b.translation)).x) as i64,
            y: (a.translation.y + spec_rotate(a.rotation, gv(b.translation)).y) as i64,
            z: (a.translation.z + spec_rotate(a.rotation, gv(b.translation)).z) as i64,
        },
    }
}

pub fn mul_transform(a: &Transform, b: &Transform) -> (r: Transform)
    requires
        transform_wf(*a),
        transform_wf(*b),
    ensures
        r == spec_mul_transform(*a, *b),
        vec_in_range(r.translation, (POS_LIMIT + ROT_LIMIT) as int),
{
    let rot = quat_mul(&a.rotation, &b.rotation);
    let rt = rotate_vec(&a.rotation, &b.translation, Ghost(POS_LIMIT as int));
    Transform {
        rotation: rot,
        translation: Vec3 {
            x: a.translation.x + rt.x,
            y: a.translation.y + rt.y,
            z: a.translation.z + rt.z,
        },
    }
}

/// The aim ray of a pose: its origin, and the `-Z` axis of its rotation as
/// the forward direction, both expressed in the tracking root's frame.
pub open spec fn spec_world_aim_origin(root: Transform, aim: Transform) -> GVec3 {
    GVec3 {
        x: root.translation.x + spec_rotate(root.rotation, gv(aim.translation)).x,
        y: root.translation.y + spec_rotate(root.rotation, gv(aim.translation)).y,
        z: root.translation.z + spec_rotate(root.rotation, gv(aim.translation)).z,
    }
}

pub open spec fn spec_forward(q: Quat) -> GVec3 {
    spec_rotate(q, GVec3 { x: 0, y: 0, z: -(SCALE as int) })
}

pub open spec fn spec_world_aim_dir(root: Transform, aim: Transform) -> GVec3 {
    spec_rotate(root.rotation, spec_forward(aim.rotation))
}

/// Transforms an aim pose by the tracking-root transform into a world-space
/// ray: `(origin, direction)`; the direction is left unnormalized, which the
/// intersection test is insensitive to.
pub fn world_aim_ray(root: &Transform, aim: &Transform) -> (r: (Vec3, Vec3))
    requires
        transform_wf(*root),
        transform_wf(*aim),
    ensures
        gv(r.0) == spec_world_aim_origin(*root, *aim),
        gv(r.1) == spec_world_aim_dir(*root, *aim),
        vec_in_range(r.0, COORD_LIMIT as int),
        vec_in_range(r.1, COORD_LIMIT as int),
{
    let rt = rotate_vec(&root.rotation, &aim.translation, Ghost(POS_LIMIT as int));
    let origin = Vec3 {
        x: root.translation.x + rt.x,
        y: root.translation.y + rt.y,
        z: root.translation.z + rt.z,
    };
    let fwd = rotate_vec(&aim.rotation, &Vec3 { x: 0, y: 0, z: -SCALE }, Ghost(SCALE as int));
    let dir = rotate_vec(&root.rotation, &fwd, Ghost(14 * SCALE as int));
    (origin, dir)
}

} // verus!
