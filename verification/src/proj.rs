//! Stereo projection math: off-axis projection matrices from a tracked
//! field of view, and frustum corner points.
//!
//! Matrix entries are ratios of the fixed-point inputs, so they are kept as
//! exact rational numbers ([`Rat`]) rather than rounded scalars.  The clip
//! space has positive Y up, so the vertical span is `tan_up - tan_down`;
//! the depth convention is a [0,1] clip space (zero depth offset), and the
//! infinite-far form is carried into the reversed-depth convention
//! (depth 1 at the near plane) the renderer expects.

use crate::math::{in_range, lemma_mul_bounds, SCALE, SCALE_SQ};
use vstd::prelude::*;

verus! {

/// Largest numerator or denominator magnitude accepted by the rational
/// constructors; products of two stay within `i128`.
pub const RAT_LIMIT: i128 = 5_000_000_000_000_000_000;

/// Largest magnitude accepted for a tangent of a field-of-view edge angle
/// (a tangent of one thousand, i.e. an angle within 0.06 degrees of a right
/// angle).
pub const TAN_LIMIT: i64 = 1_000_000;

/// Largest magnitude accepted for a clip distance (a million length units).
pub const DEPTH_LIMIT: i64 = 1_000_000_000;

/// An exact rational number; the denominator is always at least one.
#[derive(Clone, Copy, PartialEq, Eq, Structural, Debug)]
pub struct Rat {
    pub num: i128,
    pub den: i128,
}

/// `r` holds the value `num / den` as a real fraction.
pub open spec fn rat_is(r: Rat, num: int, den: int) -> bool {
    r.den >= 1 && den != 0 && r.num * den == num * r.den
}

pub open spec fn rat_small(r: Rat) -> bool {
    r.den >= 1 && in_range(r.num as int, RAT_LIMIT as int) && r.den <= RAT_LIMIT
}

/// Builds the fraction `num / den`, normalizing the denominator's sign.
pub fn rat_new(num: i128, den: i128) -> (r: Rat)
    requires
        den != 0,
        in_range(num as int, RAT_LIMIT as int),
        in_range(den as int, RAT_LIMIT as int),
    ensures
        rat_is(r, num as int, den as int),
        rat_small(r),
{
    if den > 0 {
        Rat { num, den }
    } else {
        proof {
            assert((-(num as int)) * (den as int) == (num as int) * (-(den as int)))
                by (nonlinear_arith);
        }
        Rat { num: -num, den: -den }
    }
}

/// The difference `a - b` as an exact fraction over the product of the
/// denominators.
fn rat_sub(a: &Rat, b: &Rat) -> (r: Rat)
    requires
        rat_small(*a),
        rat_small(*b),
    ensures
        rat_is(r, a.num * b.den - b.num * a.den, a.den * b.den),
        r.den == a.den * b.den,
        r.num == a.num * b.den - b.num * a.den,
{
    proof {
        lemma_mul_bounds(a.num as int, b.den as int, RAT_LIMIT as int, RAT_LIMIT as int);
        lemma_mul_bounds(b.num as int, a.den as int, RAT_LIMIT as int, RAT_LIMIT as int);
        lemma_mul_bounds(a.den as int, b.den as int, RAT_LIMIT as int, RAT_LIMIT as int);
        assert(a.den * b.den >= 1) by (nonlinear_arith)
            requires
                a.den >= 1 && b.den >= 1,
        ;
    }
    Rat { num: a.num * b.den - b.num * a.den, den: a.den * b.den }
}

/// Field of view of one eye: the tangents of the four signed edge angles
/// (left and down are negative for a symmetric view), fixed point.
#[derive(Clone, Copy, PartialEq, Eq, Structural, Debug)]
pub struct Fov {
    pub tan_left: i64,
    pub tan_right: i64,
    pub tan_up: i64,
    pub tan_down: i64,
}

impl Default for Fov {
    fn default() -> (r: Self)
        ensures
            r == (Fov { tan_left: 0, tan_right: 0, tan_up: 0, tan_down: 0 }),
    {
        Fov { tan_left: 0, tan_right: 0, tan_up: 0, tan_down: 0 }
    }
}

pub open spec fn fov_wf(f: Fov) -> bool {
    in_range(f.tan_left as int, TAN_LIMIT as int) && in_range(f.tan_right as int, TAN_LIMIT as int)
        && in_range(f.tan_up as int, TAN_LIMIT as int) && in_range(
        f.tan_down as int,
        TAN_LIMIT as int,
    )
}

/// A field of view wide enough to project: the tangent spans are non-zero.
pub open spec fn fov_spans(f: Fov) -> bool {
    f.tan_right != f.tan_left && f.tan_up != f.tan_down
}

/// A 4x4 matrix of exact rationals, entries named row-column.
#[derive(Clone, Copy, PartialEq, Eq, Structural, Debug)]
pub struct Mat4 {
    pub m00: Rat,
    pub m01: Rat,
    pub m02: Rat,
    pub m03: Rat,
    pub m10: Rat,
    pub m11: Rat,
    pub m12: Rat,
    pub m13: Rat,
    pub m20: Rat,
    pub m21: Rat,
    pub m22: Rat,
    pub m23: Rat,
    pub m30: Rat,
    pub m31: Rat,
    pub m32: Rat,
    pub m33: Rat,
}

/// The shared upper rows of the off-axis projection: column scaling and
/// off-centre skew from the four tangents.
pub open spec fn proj_upper_rows(m: Mat4, fov: Fov) -> bool {
    rat_is(m.m00, 2 * SCALE as int, fov.tan_right - fov.tan_left) && rat_is(m.m01, 0, 1) && rat_is(
        m.m02,
        fov.tan_right + fov.tan_left,
        fov.tan_right - fov.tan_left,
    ) && rat_is(m.m03, 0, 1) && rat_is(m.m10, 0, 1) && rat_is(
        m.m11,
        2 * SCALE as int,
        fov.tan_up - fov.tan_down,
    ) && rat_is(m.m12, fov.tan_up + fov.tan_down, fov.tan_up - fov.tan_down) && rat_is(m.m13, 0, 1)
        && rat_is(m.m20, 0, 1) && rat_is(m.m21, 0, 1) && rat_is(m.m30, 0, 1) && rat_is(m.m31, 0, 1)
        && rat_is(m.m32, -1, 1)
}

/// The infinite-far off-axis projection before depth reversal: the limit of
/// the finite form as the far plane goes to infinity, `m22 = -1` and
/// `m23 = -near`.
pub fn infinite_projection_unreversed(fov: &Fov, near: i64) -> (m: Mat4)
    requires
        fov_wf(*fov),
        fov_spans(*fov),
        in_range(near as int, DEPTH_LIMIT as int),
    ensures
        proj_upper_rows(m, *fov),
        m.m22.num == -1 && m.m22.den == 1,
        m.m23.num == -(near as int) && m.m23.den == SCALE as int,
        m.m32.num == -1 && m.m32.den == 1,
        m.m33.num == 0 && m.m33.den == 1,
        m.m01.num == 0 && m.m01.den == 1,
        m.m03.num == 0 && m.m03.den == 1,
        m.m10.num == 0 && m.m10.den == 1,
        m.m13.num == 0 && m.m13.den == 1,
        m.m20.num == 0 && m.m20.den == 1,
        m.m21.num == 0 && m.m21.den == 1,
        m.m30.num == 0 && m.m30.den == 1,
        m.m31.num == 0 && m.m31.den == 1,
        rat_small(m.m00) && rat_small(m.m02) && rat_small(m.m11) && rat_small(m.m12),
{
    let tan_width = fov.tan_right as i128 - fov.tan_left as i128;
    let tan_height = fov.tan_up as i128 - fov.tan_down as i128;
    let zero = Rat { num: 0, den: 1 };
    Mat4 {
        m00: rat_new(2 * SCALE as i128, tan_width),
        m01: zero,
        m02: rat_new(fov.tan_right as i128 + fov.tan_left as i128, tan_width),
        m03: zero,
        m10: zero,
        m11: rat_new(2 * SCALE as i128, tan_height),
        m12: rat_new(fov.tan_up as i128 + fov.tan_down as i128, tan_height),
        m13: zero,
        m20: zero,
        m21: zero,
        m22: Rat { num: -1, den: 1 },
        m23: Rat { num: -(near as i128), den: SCALE as i128 },
        m30: zero,
        m31: zero,
        m32: Rat { num: -1, den: 1 },
        m33: zero,
    }
}

/// Left-multiplies by the fixed depth-reversal matrix (identity except that
/// the new third row is the fourth row minus the third): maps depth so the
/// near plane lands at 1 and the far limit at 0.
fn depth_reversal(p: &Mat4) -> (m: Mat4)
    requires
        rat_small(p.m20),
        rat_small(p.m21),
        rat_small(p.m22),
        rat_small(p.m23),
        rat_small(p.m30),
        rat_small(p.m31),
        rat_small(p.m32),
        rat_small(p.m33),
    ensures
        m.m00 == p.m00 && m.m01 == p.m01 && m.m02 == p.m02 && m.m03 == p.m03,
        m.m10 == p.m10 && m.m11 == p.m11 && m.m12 == p.m12 && m.m13 == p.m13,
        m.m30 == p.m30 && m.m31 == p.m31 && m.m32 == p.m32 && m.m33 == p.m33,
        rat_is(m.m20, p.m30.num * p.m20.den - p.m20.num * p.m30.den, p.m30.den * p.m20.den),
        rat_is(m.m21, p.m31.num * p.m21.den - p.m21.num * p.m31.den, p.m31.den * p.m21.den),
        rat_is(m.m22, p.m32.num * p.m22.den - p.m22.num * p.m32.den, p.m32.den * p.m22.den),
        rat_is(m.m23, p.m33.num * p.m23.den - p.m23.num * p.m33.den, p.m33.den * p.m23.den),
{
    Mat4 {
        m20: rat_sub(&p.m30, &p.m20),
        m21: rat_sub(&p.m31, &p.m21),
        m22: rat_sub(&p.m32, &p.m22),
        m23: rat_sub(&p.m33, &p.m23),
        ..*p
    }
}

/// The finite-far off-axis projection for a [0,1] depth convention:
/// `m22 = -far / (far - near)` and `m23 = -(far * near) / (far - near)`.
pub fn finite_projection(fov: &Fov, near: i64, far: i64) -> (m: Mat4)
    requires
        fov_wf(*fov),
        fov_spans(*fov),
        in_range(near as int, DEPTH_LIMIT as int),
        in_range(far as int, DEPTH_LIMIT as int),
        far != near,
    ensures
        proj_upper_rows(m, *fov),
        rat_is(m.m22, -(far as int), far - near),
        rat_is(m.m23, -(far as int * near as int), SCALE as int * (far - near)),
        m.m33.num == 0 && m.m33.den == 1,
        m.m20.num == 0 && m.m20.den == 1,
        m.m21.num == 0 && m.m21.den == 1,
        m.m30.num == 0 && m.m30.den == 1,
        m.m31.num == 0 && m.m31.den == 1,
{
    let tan_width = fov.tan_right as i128 - fov.tan_left as i128;
    let tan_height = fov.tan_up as i128 - fov.tan_down as i128;
    let zero = Rat { num: 0, den: 1 };
    proof {
        lemma_mul_bounds(far as int, near as int, DEPTH_LIMIT as int, DEPTH_LIMIT as int);
    }
    Mat4 {
        m00: rat_new(2 * SCALE as i128, tan_width),
        m01: zero,
        m02: rat_new(fov.tan_right as i128 + fov.tan_left as i128, tan_width),
        m03: zero,
        m10: zero,
        m11: rat_new(2 * SCALE as i128, tan_height),
        m12: rat_new(fov.tan_up as i128 + fov.tan_down as i128, tan_height),
        m13: zero,
        m20: zero,
        m21: zero,
        m22: rat_new(-(far as i128), far as i128 - near as i128),
        m23: rat_new(
            -(far as i128 * near as i128),
            SCALE as i128 * (far as i128 - near as i128),
        ),
        m30: zero,
        m31: zero,
        m32: Rat { num: -1, den: 1 },
        m33: zero,
    }
}

/// Off-axis projection for the given clip distances: a far at or below the
/// near plane is the infinite-far sentinel and yields the depth-reversed
/// infinite form; otherwise the finite form is used.
pub fn projection_matrix(fov: &Fov, near: i64, far: i64) -> (m: Mat4)
    requires
        fov_wf(*fov),
        fov_spans(*fov),
        in_range(near as int, DEPTH_LIMIT as int),
        in_range(far as int, DEPTH_LIMIT as int),
    ensures
        proj_upper_rows(m, *fov),
        far <= near ==> rat_is(m.m22, 0, 1) && rat_is(m.m23, near as int, SCALE as int) && rat_is(
            m.m33,
            0,
            1,
        ),
        far > near ==> rat_is(m.m22, -(far as int), far - near) && rat_is(
            m.m23,
            -(far as int * near as int),
            SCALE as int * (far - near),
        ) && rat_is(m.m33, 0, 1),
        rat_is(m.m20, 0, 1),
        rat_is(m.m21, 0, 1),
{
    if far <= near {
        let p = infinite_projection_unreversed(fov, near);
        depth_reversal(&p)
    } else {
        finite_projection(fov, near, far)
    }
}

/// Per-eye projection state: near/far clip distances and the tracked field
/// of view that drives the matrix.
#[derive(Clone, Copy, PartialEq, Eq, Structural, Debug)]
pub struct XRProjection {
    pub near: i64,
    pub far: i64,
    pub fov: Fov,
}

impl Default for XRProjection {
    /// A tenth of a unit near plane and a thousand-unit far plane.
    fn default() -> (r: Self)
        ensures
            r.near == 100 && r.far == 1_000_000,
            r.fov.tan_left == 0 && r.fov.tan_right == 0 && r.fov.tan_up == 0 && r.fov.tan_down
                == 0,
    {
        XRProjection {
            near: 100,
            far: 1_000_000,
            fov: Fov { tan_left: 0, tan_right: 0, tan_up: 0, tan_down: 0 },
        }
    }
}

/// A point with exact rational coordinates.
#[derive(Clone, Copy, PartialEq, Eq, Structural, Debug)]
pub struct RatPoint {
    pub x: Rat,
    pub y: Rat,
    pub z: Rat,
}

/// A frustum corner at distance `d`: `(tan_h, tan_v, 1) * d` in real terms.
pub open spec fn corner_is(p: RatPoint, tan_h: int, tan_v: int, d: int) -> bool {
    rat_is(p.x, tan_h * d, (SCALE * SCALE) as int) && rat_is(p.y, tan_v * d, (SCALE * SCALE) as int)
        && rat_is(p.z, d, SCALE as int)
}

fn corner(tan_h: i64, tan_v: i64, d: i64) -> (p: RatPoint)
    requires
        in_range(tan_h as int, TAN_LIMIT as int),
        in_range(tan_v as int, TAN_LIMIT as int),
        in_range(d as int, DEPTH_LIMIT as int),
    ensures
        corner_is(p, tan_h as int, tan_v as int, d as int),
{
    proof {
        lemma_mul_bounds(tan_h as int, d as int, TAN_LIMIT as int, DEPTH_LIMIT as int);
        lemma_mul_bounds(tan_v as int, d as int, TAN_LIMIT as int, DEPTH_LIMIT as int);
    }
    RatPoint {
        x: rat_new(tan_h as i128 * d as i128, SCALE_SQ as i128),
        y: rat_new(tan_v as i128 * d as i128, SCALE_SQ as i128),
        z: rat_new(d as i128, SCALE as i128),
    }
}

impl XRProjection {
    pub fn new(near: i64, far: i64, fov: Fov) -> (r: Self)
        ensures
            r.near == near && r.far == far && r.fov == fov,
    {
        XRProjection { near, far, fov }
    }

    /// The far clip distance.
    pub fn far(&self) -> (r: i64)
        ensures
            r == self.far,
    {
        self.far
    }

    /// Viewport resizes do not drive this projection — the tracked field of
    /// view does — so the update is deliberately a no-op.
    pub fn update(&mut self, _width: i64, _height: i64)
        ensures
            *final(self) == *old(self),
    {
    }

    /// The projection matrix submitted for this eye.  A logically infinite
    /// far plane is selected by the sentinel `far <= near` and yields the
    /// depth-reversed infinite form; otherwise the standard finite off-axis
    /// form is used.
    pub fn get_projection_matrix(&self) -> (m: Mat4)
        requires
            fov_wf(self.fov),
            fov_spans(self.fov),
            in_range(self.near as int, DEPTH_LIMIT as int),
            in_range(self.far as int, DEPTH_LIMIT as int),
        ensures
            proj_upper_rows(m, self.fov),
            self.far <= self.near ==> rat_is(m.m22, 0, 1) && rat_is(
                m.m23,
                self.near as int,
                SCALE as int,
            ),
            self.far > self.near ==> rat_is(m.m22, -(self.far as int), self.far - self.near)
                && rat_is(
                m.m23,
                -(self.far as int * self.near as int),
                SCALE as int * (self.far - self.near),
            ),
            rat_is(m.m20, 0, 1),
            rat_is(m.m21, 0, 1),
            rat_is(m.m33, 0, 1),
    {
        projection_matrix(&self.fov, self.near, self.far)
    }

    /// The eight frustum corners at the two given distances, in the fixed
    /// order downstream cascade and culling consumers rely on: bottom-right,
    /// top-right, top-left, bottom-left, near plane first.
    pub fn get_frustum_corners(&self, z_near: i64, z_far: i64) -> (r: Vec<RatPoint>)
        requires
            fov_wf(self.fov),
            in_range(z_near as int, DEPTH_LIMIT as int),
            in_range(z_far as int, DEPTH_LIMIT as int),
        ensures
            r@.len() == 8,
            corner_is(r@[0], self.fov.tan_right as int, self.fov.tan_down as int, z_near as int),
            corner_is(r@[1], self.fov.tan_right as int, self.fov.tan_up as int, z_near as int),
            corner_is(r@[2], self.fov.tan_left as int, self.fov.tan_up as int, z_near as int),
            corner_is(r@[3], self.fov.tan_left as int, self.fov.tan_down as int, z_near as int),
            corner_is(r@[4], self.fov.tan_right as int, self.fov.tan_down as int, z_far as int),
            corner_is(r@[5], self.fov.tan_right as int, self.fov.tan_up as int, z_far as int),
            corner_is(r@[6], self.fov.tan_left as int, self.fov.tan_up as int, z_far as int),
            corner_is(r@[7], self.fov.tan_left as int, self.fov.tan_down as int, z_far as int),
    {
        let mut r: Vec<RatPoint> = Vec::new();
        r.push(corner(self.fov.tan_right, self.fov.tan_down, z_near));
        r.push(corner(self.fov.tan_right, self.fov.tan_up, z_near));
        r.push(corner(self.fov.tan_left, self.fov.tan_up, z_near));
        r.push(corner(self.fov.tan_left, self.fov.tan_down, z_near));
        r.push(corner(self.fov.tan_right, self.fov.tan_down, z_far));
        r.push(corner(self.fov.tan_right, self.fov.tan_up, z_far));
        r.push(corner(self.fov.tan_left, self.fov.tan_up, z_far));
        r.push(corner(self.fov.tan_left, self.fov.tan_down, z_far));
        r
    }
}

} // verus!
