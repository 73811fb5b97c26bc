//! Spatial index over keyed oriented boxes, and the frustum-polyhedron
//! builder that feeds it.
//!
//! The polyhedron's corners are images of the clip-space cube corners
//! under the inverse view-projection matrix. The inverse of an integer
//! matrix is rational, so the corners are kept exactly as integer
//! numerators over one positive denominator (the absolute determinant),
//! and every test against them multiplies through by the denominator
//! instead of dividing.

use vstd::prelude::*;

verus! {

use crate::HULL_MAX_ABS;
use crate::matrix::{Matrix4, mat_bounded, smat_mul, mul_to};
use crate::vector::{Vector3, TMinimizeMaximize, vec_min, vec_max, vec_bounded, sdot, scross_x,
    scross_y, scross_z, smin, smax, lemma_mul_bound, dot3_i128};
use crate::plane::WORLD_LIMIT;
use crate::frustum::{FrustumPlanes, frustum_wf};
use crate::culling::{BoundingKey, BoundingInfo, TBoundingInfoCalc};
use crate::culling::bounding_box::box_in_frustum;
use crate::wide::{WideInt, wide_val, wide_mul, wide_add, wide_lt, lemma_wide_hi_headroom};

/// Bound on entries of a view-projection product of two matrices
/// bounded by `HULL_MAX_ABS`: `4 * HULL_MAX_ABS^2`.
pub const VP_LIMIT: i64 = 65536;

/// Bound on the 3x3 cofactors of such a product: `6 * VP_LIMIT^3`.
pub const ADJ_LIMIT: i128 = 1688849860263936;

/// Bound on polyhedron corner numerators: `4 * ADJ_LIMIT`.
pub const HULL_POINT_LIMIT: i128 = 6755399441055744;

/// Bound on the determinant denominator: `24 * VP_LIMIT^4`.
pub const DEN_LIMIT: i128 = 442721857769029238784;

/// A point with wide integer coordinates: a corner numerator of the
/// frustum polyhedron.
#[derive(Debug, Clone, Copy, PartialEq, Eq, Structural)]
pub struct Vector3W {
    pub x: i128,
    pub y: i128,
    pub z: i128,
}

/// The eight-corner convex frustum volume, exact over the rationals:
/// corner `i` is `points[i] / den` with `den > 0`. The corners follow
/// the fixed clip-cube order `(1,1,1), (1,1,-1), (-1,1,-1), (-1,1,1),
/// (1,-1,1), (1,-1,-1), (-1,-1,-1), (-1,-1,1)`, triangulated by the
/// fixed twelve-triangle list `{0,1,2},{2,3,0},{4,5,6},{6,7,4},{0,1,4},
/// {4,5,1},{1,2,5},{5,6,2},{2,3,6},{6,7,3},{3,0,7},{7,4,0}`.
#[derive(Debug, Clone, Copy)]
pub struct FrustumPolyhedron {
    pub points: [Vector3W; 8],
    pub den: i128,
}

/// The construction failure a singular view-projection matrix causes;
/// the caller skips the spatial query for that frame.
#[derive(Debug, Clone, Copy, PartialEq, Eq, Structural)]
pub struct FrustumConstructionFailed;

pub open spec fn vecw_bounded(v: Vector3W, b: int) -> bool {
    -b <= v.x <= b && -b <= v.y <= b && -b <= v.z <= b
}

pub open spec fn hull_wf(h: FrustumPolyhedron) -> bool {
    &&& forall|i: int| 0 <= i < 8 ==> vecw_bounded(#[trigger] h.points[i], HULL_POINT_LIMIT
        as int)
    &&& 0 < h.den <= DEN_LIMIT
}

/// The six 2x2 minors of the first two rows of `m`.
pub open spec fn ss0(m: Matrix4) -> int { m.m00 * m.m11 - m.m10 * m.m01 }

pub open spec fn ss1(m: Matrix4) -> int { m.m00 * m.m12 - m.m10 * m.m02 }

pub open spec fn ss2(m: Matrix4) -> int { m.m00 * m.m13 - m.m10 * m.m03 }

pub open spec fn ss3(m: Matrix4) -> int { m.m01 * m.m12 - m.m11 * m.m02 }

pub open spec fn ss4(m: Matrix4) -> int { m.m01 * m.m13 - m.m11 * m.m03 }

pub open spec fn ss5(m: Matrix4) -> int { m.m02 * m.m13 - m.m12 * m.m03 }

/// The six 2x2 minors of the last two rows of `m`.
pub open spec fn sc5(m: Matrix4) -> int { m.m22 * m.m33 - m.m32 * m.m23 }

pub open spec fn sc4(m: Matrix4) -> int { m.m21 * m.m33 - m.m31 * m.m23 }

pub open spec fn sc3(m: Matrix4) -> int { m.m21 * m.m32 - m.m31 * m.m22 }

pub open spec fn sc2(m: Matrix4) -> int { m.m20 * m.m33 - m.m30 * m.m23 }

pub open spec fn sc1(m: Matrix4) -> int { m.m20 * m.m32 - m.m30 * m.m22 }

pub open spec fn sc0(m: Matrix4) -> int { m.m20 * m.m31 - m.m30 * m.m21 }

/// Determinant of `m` by the 2x2-minor expansion.
pub open spec fn sdet4(m: Matrix4) -> int {
    ss0(m) * sc5(m) - ss1(m) * sc4(m) + ss2(m) * sc3(m) + ss3(m) * sc2(m) - ss4(m) * sc1(m)
        + ss5(m) * sc0(m)
}

/// The first three rows of the adjugate of `m` (the inverse times the
/// determinant); the fourth row is not needed, because the corners'
/// homogeneous coordinate is dropped.
pub open spec fn sadj(m: Matrix4, r: int, c: int) -> int {
    if r == 0 {
        if c == 0 { m.m11 * sc5(m) - m.m12 * sc4(m) + m.m13 * sc3(m) }
        else if c == 1 { -(m.m01 * sc5(m) - m.m02 * sc4(m) + m.m03 * sc3(m)) }
        else if c == 2 { m.m31 * ss5(m) - m.m32 * ss4(m) + m.m33 * ss3(m) }
        else { -(m.m21 * ss5(m) - m.m22 * ss4(m) + m.m23 * ss3(m)) }
    } else if r == 1 {
        if c == 0 { -(m.m10 * sc5(m) - m.m12 * sc2(m) + m.m13 * sc1(m)) }
        else if c == 1 { m.m00 * sc5(m) - m.m02 * sc2(m) + m.m03 * sc1(m) }
        else if c == 2 { -(m.m30 * ss5(m) - m.m32 * ss2(m) + m.m33 * ss1(m)) }
        else { m.m20 * ss5(m) - m.m22 * ss2(m) + m.m23 * ss1(m) }
    } else {
        if c == 0 { m.m10 * sc4(m) - m.m11 * sc2(m) + m.m13 * sc0(m) }
        else if c == 1 { -(m.m00 * sc4(m) - m.m01 * sc2(m) + m.m03 * sc0(m)) }
        else if c == 2 { m.m30 * ss4(m) - m.m31 * ss2(m) + m.m33 * ss0(m) }
        else { -(m.m20 * ss4(m) - m.m21 * ss2(m) + m.m23 * ss0(m)) }
    }
}

/// Clip-cube corner signs in the fixed order.
pub open spec fn clip_x(i: int) -> int {
    if i == 0 || i == 1 || i == 4 || i == 5 { 1 } else { -1 }
}

pub open spec fn clip_y(i: int) -> int {
    if i < 4 { 1 } else { -1 }
}

pub open spec fn clip_z(i: int) -> int {
    if i == 0 || i == 3 || i == 4 || i == 7 { 1 } else { -1 }
}

/// Numerator of coordinate `r` of polyhedron corner `i`: row `r` of the
/// adjugate applied to the homogeneous clip corner.
pub open spec fn hull_u(m: Matrix4, r: int, i: int) -> int {
    sadj(m, r, 0) * clip_x(i) + sadj(m, r, 1) * clip_y(i) + sadj(m, r, 2) * clip_z(i) + sadj(m, r,
        3)
}

/// Corner `i` of the polyhedron of `m`, with the denominator made
/// positive: negated numerators when the determinant is negative.
pub open spec fn hull_point_spec(m: Matrix4, i: int) -> Vector3W {
    if sdet4(m) > 0 {
        Vector3W {
            x: hull_u(m, 0, i) as i128,
            y: hull_u(m, 1, i) as i128,
            z: hull_u(m, 2, i) as i128,
        }
    } else {
        Vector3W {
            x: (-hull_u(m, 0, i)) as i128,
            y: (-hull_u(m, 1, i)) as i128,
            z: (-hull_u(m, 2, i)) as i128,
        }
    }
}

/// The polyhedron `compute_frustum` builds from a nonsingular product
/// matrix.
pub open spec fn hull_spec(m: Matrix4) -> FrustumPolyhedron {
    FrustumPolyhedron {
        points: [
            hull_point_spec(m, 0),
            hull_point_spec(m, 1),
            hull_point_spec(m, 2),
            hull_point_spec(m, 3),
            hull_point_spec(m, 4),
            hull_point_spec(m, 5),
            hull_point_spec(m, 6),
            hull_point_spec(m, 7),
        ],
        den: (if sdet4(m) > 0 { sdet4(m) } else { -sdet4(m) }) as i128,
    }
}

/// Magnitude bound of a 4-term dot product of bounded values.
proof fn lemma_dot4_bound(a0: int, a1: int, a2: int, a3: int, b0: int, b1: int, b2: int, b3: int,
    ba: int, bb: int)
    by (nonlinear_arith)
    requires
        -ba <= a0 <= ba, -ba <= a1 <= ba, -ba <= a2 <= ba, -ba <= a3 <= ba,
        -bb <= b0 <= bb, -bb <= b1 <= bb, -bb <= b2 <= bb, -bb <= b3 <= bb,
        0 <= ba, 0 <= bb,
    ensures
        -(4 * (ba * bb)) <= a0 * b0 + a1 * b1 + a2 * b2 + a3 * b3 <= 4 * (ba * bb),
{
}

/// Entry bounds of a product of two matrices bounded by `HULL_MAX_ABS`.
pub proof fn lemma_vp_bounded(a: Matrix4, b: Matrix4)
    requires
        mat_bounded(a, HULL_MAX_ABS as int),
        mat_bounded(b, HULL_MAX_ABS as int),
    ensures
        mat_bounded(smat_mul(a, b), VP_LIMIT as int),
{
    let h = HULL_MAX_ABS as int;
    lemma_dot4_bound(a.m00 as int, a.m01 as int, a.m02 as int, a.m03 as int, b.m00 as int,
        b.m10 as int, b.m20 as int, b.m30 as int, h, h);
    lemma_dot4_bound(a.m00 as int, a.m01 as int, a.m02 as int, a.m03 as int, b.m01 as int,
        b.m11 as int, b.m21 as int, b.m31 as int, h, h);
    lemma_dot4_bound(a.m00 as int, a.m01 as int, a.m02 as int, a.m03 as int, b.m02 as int,
        b.m12 as int, b.m22 as int, b.m32 as int, h, h);
    lemma_dot4_bound(a.m00 as int, a.m01 as int, a.m02 as int, a.m03 as int, b.m03 as int,
        b.m13 as int, b.m23 as int, b.m33 as int, h, h);
    lemma_dot4_bound(a.m10 as int, a.m11 as int, a.m12 as int, a.m13 as int, b.m00 as int,
        b.m10 as int, b.m20 as int, b.m30 as int, h, h);
    lemma_dot4_bound(a.m10 as int, a.m11 as int, a.m12 as int, a.m13 as int, b.m01 as int,
        b.m11 as int, b.m21 as int, b.m31 as int, h, h);
    lemma_dot4_bound(a.m10 as int, a.m11 as int, a.m12 as int, a.m13 as int, b.m02 as int,
        b.m12 as int, b.m22 as int, b.m32 as int, h, h);
    lemma_dot4_bound(a.m10 as int, a.m11 as int, a.m12 as int, a.m13 as int, b.m03 as int,
        b.m13 as int, b.m23 as int, b.m33 as int, h, h);
    lemma_dot4_bound(a.m20 as int, a.m21 as int, a.m22 as int, a.m23 as int, b.m00 as int,
        b.m10 as int, b.m20 as int, b.m30 as int, h, h);
    lemma_dot4_bound(a.m20 as int, a.m21 as int, a.m22 as int, a.m23 as int, b.m01 as int,
        b.m11 as int, b.m21 as int, b.m31 as int, h, h);
    lemma_dot4_bound(a.m20 as int, a.m21 as int, a.m22 as int, a.m23 as int, b.m02 as int,
        b.m12 as int, b.m22 as int, b.m32 as int, h, h);
    lemma_dot4_bound(a.m20 as int, a.m21 as int, a.m22 as int, a.m23 as int, b.m03 as int,
        b.m13 as int, b.m23 as int, b.m33 as int, h, h);
    lemma_dot4_bound(a.m30 as int, a.m31 as int, a.m32 as int, a.m33 as int, b.m00 as int,
        b.m10 as int, b.m20 as int, b.m30 as int, h, h);
    lemma_dot4_bound(a.m30 as int, a.m31 as int, a.m32 as int, a.m33 as int, b.m01 as int,
        b.m11 as int, b.m21 as int, b.m31 as int, h, h);
    lemma_dot4_bound(a.m30 as int, a.m31 as int, a.m32 as int, a.m33 as int, b.m02 as int,
        b.m12 as int, b.m22 as int, b.m32 as int, h, h);
    lemma_dot4_bound(a.m30 as int, a.m31 as int, a.m32 as int, a.m33 as int, b.m03 as int,
        b.m13 as int, b.m23 as int, b.m33 as int, h, h);
}


/// `a * b - c * d` over bounded entries, exact in 128-bit arithmetic.
fn diff2(a: i64, b: i64, c: i64, d: i64) -> (r: i128)
    requires
        -VP_LIMIT <= a <= VP_LIMIT,
        -VP_LIMIT <= b <= VP_LIMIT,
        -VP_LIMIT <= c <= VP_LIMIT,
        -VP_LIMIT <= d <= VP_LIMIT,
    ensures
        r == a * b - c * d,
        -8589934592 <= r <= 8589934592,
{
    proof {
        lemma_mul_bound(a as int, b as int, VP_LIMIT as int, VP_LIMIT as int);
        lemma_mul_bound(c as int, d as int, VP_LIMIT as int, VP_LIMIT as int);
    }
    (a as i128) * (b as i128) - (c as i128) * (d as i128)
}

/// `a * fa - b * fb + c * fc`: one adjugate cofactor from three entries
/// and three 2x2 minors.
fn adj_entry(a: i64, fa: i128, b: i64, fb: i128, c: i64, fc: i128) -> (r: i128)
    requires
        -VP_LIMIT <= a <= VP_LIMIT,
        -VP_LIMIT <= b <= VP_LIMIT,
        -VP_LIMIT <= c <= VP_LIMIT,
        -8589934592 <= fa <= 8589934592,
        -8589934592 <= fb <= 8589934592,
        -8589934592 <= fc <= 8589934592,
    ensures
        r == a * fa - b * fb + c * fc,
        -ADJ_LIMIT <= r <= ADJ_LIMIT,
{
    proof {
        lemma_mul_bound(a as int, fa as int, VP_LIMIT as int, 8589934592);
        lemma_mul_bound(b as int, fb as int, VP_LIMIT as int, 8589934592);
        lemma_mul_bound(c as int, fc as int, VP_LIMIT as int, 8589934592);
    }
    (a as i128) * fa - (b as i128) * fb + (c as i128) * fc
}

/// Derive the frustum polyhedron from the camera's projection and view
/// matrices: invert their product exactly (adjugate over determinant)
/// and carry the eight clip-cube corners through it, in the fixed
/// corner order. The one genuine failure: a singular product has no
/// inverse, and the caller must skip the spatial query for that frame.
#[verifier::rlimit(100)]
pub fn compute_frustum(project: &Matrix4, view: &Matrix4) -> (r: Result<FrustumPolyhedron,
    FrustumConstructionFailed>)
    requires
        mat_bounded(*project, HULL_MAX_ABS as int),
        mat_bounded(*view, HULL_MAX_ABS as int),
    ensures
        r is Err <==> sdet4(smat_mul(*project, *view)) == 0,
        r matches Ok(h) ==> h == hull_spec(smat_mul(*project, *view)) && hull_wf(h),
{
    let mut m = Matrix4::identity();
    mul_to(project, view, &mut m);
    proof {
        lemma_vp_bounded(*project, *view);
    }
    let s0 = diff2(m.m00, m.m11, m.m10, m.m01);
    let s1 = diff2(m.m00, m.m12, m.m10, m.m02);
    let s2 = diff2(m.m00, m.m13, m.m10, m.m03);
    let s3 = diff2(m.m01, m.m12, m.m11, m.m02);
    let s4 = diff2(m.m01, m.m13, m.m11, m.m03);
    let s5 = diff2(m.m02, m.m13, m.m12, m.m03);
    let c5 = diff2(m.m22, m.m33, m.m32, m.m23);
    let c4 = diff2(m.m21, m.m33, m.m31, m.m23);
    let c3 = diff2(m.m21, m.m32, m.m31, m.m22);
    let c2 = diff2(m.m20, m.m33, m.m30, m.m23);
    let c1 = diff2(m.m20, m.m32, m.m30, m.m22);
    let c0 = diff2(m.m20, m.m31, m.m30, m.m21);
    proof {
        lemma_mul_bound(s0 as int, c5 as int, 8589934592, 8589934592);
        lemma_mul_bound(s1 as int, c4 as int, 8589934592, 8589934592);
        lemma_mul_bound(s2 as int, c3 as int, 8589934592, 8589934592);
        lemma_mul_bound(s3 as int, c2 as int, 8589934592, 8589934592);
        lemma_mul_bound(s4 as int, c1 as int, 8589934592, 8589934592);
        lemma_mul_bound(s5 as int, c0 as int, 8589934592, 8589934592);
    }
    let det: i128 = s0 * c5 - s1 * c4 + s2 * c3 + s3 * c2 - s4 * c1 + s5 * c0;
    if det == 0 {
        return Err(FrustumConstructionFailed);
    }
    let a00 = adj_entry(m.m11, c5, m.m12, c4, m.m13, c3);
    let a01 = -adj_entry(m.m01, c5, m.m02, c4, m.m03, c3);
    let a02 = adj_entry(m.m31, s5, m.m32, s4, m.m33, s3);
    let a03 = -adj_entry(m.m21, s5, m.m22, s4, m.m23, s3);
    let a10 = -adj_entry(m.m10, c5, m.m12, c2, m.m13, c1);
    let a11 = adj_entry(m.m00, c5, m.m02, c2, m.m03, c1);
    let a12 = -adj_entry(m.m30, s5, m.m32, s2, m.m33, s1);
    let a13 = adj_entry(m.m20, s5, m.m22, s2, m.m23, s1);
    let a20 = adj_entry(m.m10, c4, m.m11, c2, m.m13, c0);
    let a21 = -adj_entry(m.m00, c4, m.m01, c2, m.m03, c0);
    let a22 = adj_entry(m.m30, s4, m.m31, s2, m.m33, s0);
    let a23 = -adj_entry(m.m20, s4, m.m21, s2, m.m23, s0);
    proof {
        assert(a00 == sadj(m, 0, 0));
        assert(a01 == sadj(m, 0, 1));
        assert(a02 == sadj(m, 0, 2));
        assert(a03 == sadj(m, 0, 3));
        assert(a10 == sadj(m, 1, 0));
        assert(a11 == sadj(m, 1, 1));
        assert(a12 == sadj(m, 1, 2));
        assert(a13 == sadj(m, 1, 3));
        assert(a20 == sadj(m, 2, 0));
        assert(a21 == sadj(m, 2, 1));
        assert(a22 == sadj(m, 2, 2));
        assert(a23 == sadj(m, 2, 3));
        assert(det == sdet4(m));
    }
    let u0 = Vector3W { x: a00 + a01 + a02 + a03, y: a10 + a11 + a12 + a13, z: a20 + a21 + a22
        + a23 };
    let u1 = Vector3W { x: a00 + a01 - a02 + a03, y: a10 + a11 - a12 + a13, z: a20 + a21 - a22
        + a23 };
    let u2 = Vector3W { x: -a00 + a01 - a02 + a03, y: -a10 + a11 - a12 + a13, z: -a20 + a21 - a22
        + a23 };
    let u3 = Vector3W { x: -a00 + a01 + a02 + a03, y: -a10 + a11 + a12 + a13, z: -a20 + a21 + a22
        + a23 };
    let u4 = Vector3W { x: a00 - a01 + a02 + a03, y: a10 - a11 + a12 + a13, z: a20 - a21 + a22
        + a23 };
    let u5 = Vector3W { x: a00 - a01 - a02 + a03, y: a10 - a11 - a12 + a13, z: a20 - a21 - a22
        + a23 };
    let u6 = Vector3W { x: -a00 - a01 - a02 + a03, y: -a10 - a11 - a12 + a13, z: -a20 - a21 - a22
        + a23 };
    let u7 = Vector3W { x: -a00 - a01 + a02 + a03, y: -a10 - a11 + a12 + a13, z: -a20 - a21 + a22
        + a23 };
    let hull = if det > 0 {
        FrustumPolyhedron { points: [u0, u1, u2, u3, u4, u5, u6, u7], den: det }
    } else {
        FrustumPolyhedron {
            points: [
                Vector3W { x: -u0.x, y: -u0.y, z: -u0.z },
                Vector3W { x: -u1.x, y: -u1.y, z: -u1.z },
                Vector3W { x: -u2.x, y: -u2.y, z: -u2.z },
                Vector3W { x: -u3.x, y: -u3.y, z: -u3.z },
                Vector3W { x: -u4.x, y: -u4.y, z: -u4.z },
                Vector3W { x: -u5.x, y: -u5.y, z: -u5.z },
                Vector3W { x: -u6.x, y: -u6.y, z: -u6.z },
                Vector3W { x: -u7.x, y: -u7.y, z: -u7.z },
            ],
            den: -det,
        }
    };
    proof {
        assert(u0.x == hull_u(m, 0, 0) && u0.y == hull_u(m, 1, 0) && u0.z == hull_u(m, 2, 0));
        assert(u1.x == hull_u(m, 0, 1) && u1.y == hull_u(m, 1, 1) && u1.z == hull_u(m, 2, 1));
        assert(u2.x == hull_u(m, 0, 2) && u2.y == hull_u(m, 1, 2) && u2.z == hull_u(m, 2, 2));
        assert(u3.x == hull_u(m, 0, 3) && u3.y == hull_u(m, 1, 3) && u3.z == hull_u(m, 2, 3));
        assert(u4.x == hull_u(m, 0, 4) && u4.y == hull_u(m, 1, 4) && u4.z == hull_u(m, 2, 4));
        assert(u5.x == hull_u(m, 0, 5) && u5.y == hull_u(m, 1, 5) && u5.z == hull_u(m, 2, 5));
        assert(u6.x == hull_u(m, 0, 6) && u6.y == hull_u(m, 1, 6) && u6.z == hull_u(m, 2, 6));
        assert(u7.x == hull_u(m, 0, 7) && u7.y == hull_u(m, 1, 7) && u7.z == hull_u(m, 2, 7));
        assert(hull.points[0] == hull_point_spec(m, 0));
        assert(hull.points[1] == hull_point_spec(m, 1));
        assert(hull.points[2] == hull_point_spec(m, 2));
        assert(hull.points[3] == hull_point_spec(m, 3));
        assert(hull.points[4] == hull_point_spec(m, 4));
        assert(hull.points[5] == hull_point_spec(m, 5));
        assert(hull.points[6] == hull_point_spec(m, 6));
        assert(hull.points[7] == hull_point_spec(m, 7));
        assert(hull.points =~= hull_spec(m).points);
        assert(hull == hull_spec(m));
    }
    Ok(hull)
}



/// Bound on corners of oriented boxes stored in the spatial index: what
/// a transform bounded by `HULL_MAX_ABS` produces from coordinates
/// bounded by `HULL_MAX_ABS` (`3 * HULL_MAX_ABS^2 + HULL_MAX_ABS`).
pub const OBB_CORNER_LIMIT: i64 = 49280;

/// Bound on separating-axis components: `2 * (2 * OBB_CORNER_LIMIT)^2`.
pub const AXIS_LIMIT: i64 = 19428147200;

/// Bound on a box projection onto such an axis:
/// `3 * AXIS_LIMIT * OBB_CORNER_LIMIT`.
pub const BPROJ_LIMIT: i128 = 2872257282048000;

/// Bound on hull edge-direction components: `2 * HULL_POINT_LIMIT`.
pub const HEDGE_LIMIT: i128 = 13510798882111488;

/// Bound on hull-derived axis components: `2 * HEDGE_LIMIT^2`.
pub const AXISW_LIMIT: i128 = 365083372865730067631050523148288;

/// Bound on a box projection onto a hull-derived axis:
/// `3 * AXISW_LIMIT * OBB_CORNER_LIMIT`.
pub const BDOTW_LIMIT: i128 = 53973925844469533198574509342242897920;

/// Componentwise minimum of eight corners, folded in storage order.
pub open spec fn corners_env_min(ws: [Vector3; 8]) -> Vector3 {
    vec_min(vec_min(vec_min(vec_min(vec_min(vec_min(vec_min(ws[0], ws[1]), ws[2]), ws[3]), ws[4]),
        ws[5]), ws[6]), ws[7])
}

/// Componentwise maximum of eight corners.
pub open spec fn corners_env_max(ws: [Vector3; 8]) -> Vector3 {
    vec_max(vec_max(vec_max(vec_max(vec_max(vec_max(vec_max(ws[0], ws[1]), ws[2]), ws[3]), ws[4]),
        ws[5]), ws[6]), ws[7])
}

/// Smallest x numerator over the polyhedron corners, and the other five
/// envelope numerators.
pub open spec fn hull_lo_x(h: FrustumPolyhedron) -> int {
    smin(smin(smin(smin(smin(smin(smin(h.points[0].x as int, h.points[1].x as int), h.points[2].x
        as int), h.points[3].x as int), h.points[4].x as int), h.points[5].x as int), h.points[6].x
        as int), h.points[7].x as int)
}

pub open spec fn hull_lo_y(h: FrustumPolyhedron) -> int {
    smin(smin(smin(smin(smin(smin(smin(h.points[0].y as int, h.points[1].y as int), h.points[2].y
        as int), h.points[3].y as int), h.points[4].y as int), h.points[5].y as int), h.points[6].y
        as int), h.points[7].y as int)
}

pub open spec fn hull_lo_z(h: FrustumPolyhedron) -> int {
    smin(smin(smin(smin(smin(smin(smin(h.points[0].z as int, h.points[1].z as int), h.points[2].z
        as int), h.points[3].z as int), h.points[4].z as int), h.points[5].z as int), h.points[6].z
        as int), h.points[7].z as int)
}

pub open spec fn hull_hi_x(h: FrustumPolyhedron) -> int {
    smax(smax(smax(smax(smax(smax(smax(h.points[0].x as int, h.points[1].x as int), h.points[2].x
        as int), h.points[3].x as int), h.points[4].x as int), h.points[5].x as int), h.points[6].x
        as int), h.points[7].x as int)
}

pub open spec fn hull_hi_y(h: FrustumPolyhedron) -> int {
    smax(smax(smax(smax(smax(smax(smax(h.points[0].y as int, h.points[1].y as int), h.points[2].y
        as int), h.points[3].y as int), h.points[4].y as int), h.points[5].y as int), h.points[6].y
        as int), h.points[7].y as int)
}

pub open spec fn hull_hi_z(h: FrustumPolyhedron) -> int {
    smax(smax(smax(smax(smax(smax(smax(h.points[0].z as int, h.points[1].z as int), h.points[2].z
        as int), h.points[3].z as int), h.points[4].z as int), h.points[5].z as int), h.points[6].z
        as int), h.points[7].z as int)
}

/// The broad-phase overlap predicate between the polyhedron's envelope
/// `a` and a box envelope `b`: `a.min <= b.max` and `a.max > b.min`
/// componentwise, open on the max side to avoid double matches at
/// shared boundaries. The polyhedron side is rational, so both sides
/// are multiplied by the positive denominator.
pub open spec fn polyhedron_overlaps_aabb(h: FrustumPolyhedron, bmin: Vector3, bmax: Vector3)
    -> bool {
    &&& hull_lo_x(h) <= h.den * bmax.x && h.den * bmin.x < hull_hi_x(h)
    &&& hull_lo_y(h) <= h.den * bmax.y && h.den * bmin.y < hull_hi_y(h)
    &&& hull_lo_z(h) <= h.den * bmax.z && h.den * bmin.z < hull_hi_z(h)
}

/// Projection of a corner numerator onto an axis.
pub open spec fn dotw(a: Vector3, p: Vector3W) -> int {
    a.x * p.x + a.y * p.y + a.z * p.z
}

pub open spec fn vsub(a: Vector3, b: Vector3) -> Vector3 {
    Vector3 { x: (a.x - b.x) as i64, y: (a.y - b.y) as i64, z: (a.z - b.z) as i64 }
}

pub open spec fn vcross(a: Vector3, b: Vector3) -> Vector3 {
    Vector3 { x: scross_x(a, b) as i64, y: scross_y(a, b) as i64, z: scross_z(a, b) as i64 }
}

/// The edge directions of the stored parallelepiped, out of corner 0
/// (corners 2, 3 and 4 are its axis neighbours in the fixed corner
/// order).
pub open spec fn box_edge(ws: [Vector3; 8], k: int) -> Vector3 {
    if k == 0 {
        vsub(ws[2], ws[0])
    } else if k == 1 {
        vsub(ws[3], ws[0])
    } else {
        vsub(ws[4], ws[0])
    }
}

/// The three face normals of the stored parallelepiped.
pub open spec fn box_axis(ws: [Vector3; 8], k: int) -> Vector3 {
    let e1 = box_edge(ws, 0);
    let e2 = box_edge(ws, 1);
    let e3 = box_edge(ws, 2);
    if k == 0 {
        vcross(e1, e2)
    } else if k == 1 {
        vcross(e2, e3)
    } else {
        vcross(e3, e1)
    }
}

pub open spec fn vsubw(a: Vector3W, b: Vector3W) -> Vector3W {
    Vector3W { x: (a.x - b.x) as i128, y: (a.y - b.y) as i128, z: (a.z - b.z) as i128 }
}

pub open spec fn vcrossw(a: Vector3W, b: Vector3W) -> Vector3W {
    Vector3W {
        x: (a.y * b.z - a.z * b.y) as i128,
        y: (a.z * b.x - a.x * b.z) as i128,
        z: (a.x * b.y - a.y * b.x) as i128,
    }
}

pub open spec fn widen(v: Vector3) -> Vector3W {
    Vector3W { x: v.x as i128, y: v.y as i128, z: v.z as i128 }
}

/// The polyhedron's edge directions: its corners follow the fixed
/// clip-cube order, so the differences towards corners 3, 4 and 1 from
/// corner 0 span its three edge directions.
pub open spec fn hull_edge(h: FrustumPolyhedron, k: int) -> Vector3W {
    if k == 0 {
        vsubw(h.points[0], h.points[3])
    } else if k == 1 {
        vsubw(h.points[0], h.points[4])
    } else {
        vsubw(h.points[0], h.points[1])
    }
}

/// The polyhedron's face normals. The fixed twelve-triangle list yields
/// twelve normals, but each face's two triangles are coplanar and
/// opposite faces are parallel, so they reduce to these three edge-pair
/// cross products.
pub open spec fn hull_axis(h: FrustumPolyhedron, k: int) -> Vector3W {
    if k == 0 {
        vcrossw(hull_edge(h, 0), hull_edge(h, 1))
    } else if k == 1 {
        vcrossw(hull_edge(h, 1), hull_edge(h, 2))
    } else {
        vcrossw(hull_edge(h, 2), hull_edge(h, 0))
    }
}

/// One edge-pair cross axis: a hull edge direction crossed with a box
/// edge direction.
pub open spec fn edge_axis(h: FrustumPolyhedron, ws: [Vector3; 8], i: int, j: int) -> Vector3W {
    vcrossw(hull_edge(h, i), widen(box_edge(ws, j)))
}

/// Projection of a corner numerator onto a hull-derived (wide) axis.
pub open spec fn dotww(a: Vector3W, p: Vector3W) -> int {
    a.x * p.x + a.y * p.y + a.z * p.z
}

/// Projection of a box corner onto a hull-derived (wide) axis.
pub open spec fn dotwn(a: Vector3W, w: Vector3) -> int {
    a.x * w.x + a.y * w.y + a.z * w.z
}

/// `axis_separates` for a hull-derived axis, whose projections exceed
/// 128 bits and are compared in exact 256-bit arithmetic.
pub open spec fn axis_separates_w(h: FrustumPolyhedron, ws: [Vector3; 8], a: Vector3W) -> bool {
    ||| forall|i: int, j: int| #![trigger h.points[i], ws[j]] 0 <= i < 8 && 0 <= j < 8 ==> dotww(
        a, h.points[i]) < h.den * dotwn(a, ws[j])
    ||| forall|i: int, j: int| #![trigger h.points[i], ws[j]] 0 <= i < 8 && 0 <= j < 8 ==> h.den
        * dotwn(a, ws[j]) < dotww(a, h.points[i])
}

/// The axis strictly separates the polyhedron from the eight corners:
/// every polyhedron corner projects strictly below every box corner, or
/// strictly above. A true verdict implies real disjointness; touching
/// volumes are never separated.
pub open spec fn axis_separates(h: FrustumPolyhedron, ws: [Vector3; 8], a: Vector3) -> bool {
    ||| forall|i: int, j: int| #![trigger h.points[i], ws[j]] 0 <= i < 8 && 0 <= j < 8 ==> dotw(a,
        h.points[i]) < h.den * sdot(a, ws[j])
    ||| forall|i: int, j: int| #![trigger h.points[i], ws[j]] 0 <= i < 8 && 0 <= j < 8 ==> h.den
        * sdot(a, ws[j]) < dotw(a, h.points[i])
}

/// The narrow-phase verdict for one stored box: the broad-phase
/// envelope overlap, refined by the exact separating-axis test between
/// the polyhedron and the box over the full axis set of the two convex
/// volumes - the box's three face normals, the polyhedron's three face
/// normals (its twelve triangle normals reduce to these), and the nine
/// edge-direction cross pairs. The hull-derived projections exceed 128
/// bits and run in exact 256-bit arithmetic.
pub open spec fn polyhedron_hits_corners(h: FrustumPolyhedron, ws: [Vector3; 8]) -> bool {
    &&& polyhedron_overlaps_aabb(h, corners_env_min(ws), corners_env_max(ws))
    &&& !axis_separates(h, ws, box_axis(ws, 0))
    &&& !axis_separates(h, ws, box_axis(ws, 1))
    &&& !axis_separates(h, ws, box_axis(ws, 2))
    &&& !axis_separates_w(h, ws, hull_axis(h, 0))
    &&& !axis_separates_w(h, ws, hull_axis(h, 1))
    &&& !axis_separates_w(h, ws, hull_axis(h, 2))
    &&& forall|i: int, j: int| 0 <= i < 3 && 0 <= j < 3 ==> !axis_separates_w(h, ws,
        #[trigger] edge_axis(h, ws, i, j))
}

/// `d * x <= d * y` for a nonnegative factor.
proof fn lemma_mul_le_mono(d: int, x: int, y: int)
    by (nonlinear_arith)
    requires
        0 <= d,
        x <= y,
    ensures
        d * x <= d * y,
{
}

/// Envelope of eight corners, exactly the componentwise folds.
fn env8(ws: &[Vector3; 8]) -> (r: (Vector3, Vector3))
    ensures
        r.0 == corners_env_min(*ws),
        r.1 == corners_env_max(*ws),
{
    let mut lo = Vector3 { x: ws[0].x, y: ws[0].y, z: ws[0].z };
    let mut hi = Vector3 { x: ws[0].x, y: ws[0].y, z: ws[0].z };
    let mut i: usize = 1;
    while i < 8
        invariant
            1 <= i <= 8,
            lo == fold_min_upto(*ws, i as int),
            hi == fold_max_upto(*ws, i as int),
        decreases 8 - i,
    {
        let w = Vector3 { x: ws[i].x, y: ws[i].y, z: ws[i].z };
        lo.minimize_mut(&w);
        hi.maximize_mut(&w);
        i += 1;
    }
    proof {
        reveal_with_fuel(fold_min_upto, 9);
        reveal_with_fuel(fold_max_upto, 9);
        assert(fold_min_upto(*ws, 8) == corners_env_min(*ws));
        assert(fold_max_upto(*ws, 8) == corners_env_max(*ws));
    }
    (lo, hi)
}

/// Left fold of `vec_min` over the first `n` corners.
pub open spec fn fold_min_upto(ws: [Vector3; 8], n: int) -> Vector3
    decreases n,
{
    if n <= 1 {
        ws[0]
    } else {
        vec_min(fold_min_upto(ws, n - 1), ws[n - 1])
    }
}

pub open spec fn fold_max_upto(ws: [Vector3; 8], n: int) -> Vector3
    decreases n,
{
    if n <= 1 {
        ws[0]
    } else {
        vec_max(fold_max_upto(ws, n - 1), ws[n - 1])
    }
}

/// Exact broad-phase test against a box envelope.
fn overlaps_aabb(h: &FrustumPolyhedron, bmin: &Vector3, bmax: &Vector3) -> (r: bool)
    requires
        hull_wf(*h),
        vec_bounded(*bmin, OBB_CORNER_LIMIT as int),
        vec_bounded(*bmax, OBB_CORNER_LIMIT as int),
    ensures
        r == polyhedron_overlaps_aabb(*h, *bmin, *bmax),
{
    proof {
        lemma_mul_bound(h.den as int, bmin.x as int, DEN_LIMIT as int, OBB_CORNER_LIMIT as int);
        lemma_mul_bound(h.den as int, bmin.y as int, DEN_LIMIT as int, OBB_CORNER_LIMIT as int);
        lemma_mul_bound(h.den as int, bmin.z as int, DEN_LIMIT as int, OBB_CORNER_LIMIT as int);
        lemma_mul_bound(h.den as int, bmax.x as int, DEN_LIMIT as int, OBB_CORNER_LIMIT as int);
        lemma_mul_bound(h.den as int, bmax.y as int, DEN_LIMIT as int, OBB_CORNER_LIMIT as int);
        lemma_mul_bound(h.den as int, bmax.z as int, DEN_LIMIT as int, OBB_CORNER_LIMIT as int);
    }
    let p0 = h.points[0];
    let p1 = h.points[1];
    let p2 = h.points[2];
    let p3 = h.points[3];
    let p4 = h.points[4];
    let p5 = h.points[5];
    let p6 = h.points[6];
    let p7 = h.points[7];
    let lox = minw(minw(minw(minw(minw(minw(minw(p0.x, p1.x), p2.x), p3.x), p4.x), p5.x), p6.x),
        p7.x);
    let loy = minw(minw(minw(minw(minw(minw(minw(p0.y, p1.y), p2.y), p3.y), p4.y), p5.y), p6.y),
        p7.y);
    let loz = minw(minw(minw(minw(minw(minw(minw(p0.z, p1.z), p2.z), p3.z), p4.z), p5.z), p6.z),
        p7.z);
    let hix = maxw(maxw(maxw(maxw(maxw(maxw(maxw(p0.x, p1.x), p2.x), p3.x), p4.x), p5.x), p6.x),
        p7.x);
    let hiy = maxw(maxw(maxw(maxw(maxw(maxw(maxw(p0.y, p1.y), p2.y), p3.y), p4.y), p5.y), p6.y),
        p7.y);
    let hiz = maxw(maxw(maxw(maxw(maxw(maxw(maxw(p0.z, p1.z), p2.z), p3.z), p4.z), p5.z), p6.z),
        p7.z);
    lox <= h.den * (bmax.x as i128) && h.den * (bmin.x as i128) < hix && loy <= h.den * (bmax.y
        as i128) && h.den * (bmin.y as i128) < hiy && loz <= h.den * (bmax.z as i128) && h.den
        * (bmin.z as i128) < hiz
}

/// Minimum of two wide values.
fn minw(a: i128, b: i128) -> (r: i128)
    ensures
        r == smin(a as int, b as int),
{
    if a <= b {
        a
    } else {
        b
    }
}

fn maxw(a: i128, b: i128) -> (r: i128)
    ensures
        r == smax(a as int, b as int),
{
    if a >= b {
        a
    } else {
        b
    }
}

/// Exact projection of one corner numerator onto an axis.
fn dotw_i128(a: &Vector3, p: &Vector3W) -> (r: i128)
    requires
        vec_bounded(*a, AXIS_LIMIT as int),
        vecw_bounded(*p, HULL_POINT_LIMIT as int),
    ensures
        r == dotw(*a, *p),
{
    proof {
        lemma_mul_bound(a.x as int, p.x as int, AXIS_LIMIT as int, HULL_POINT_LIMIT as int);
        lemma_mul_bound(a.y as int, p.y as int, AXIS_LIMIT as int, HULL_POINT_LIMIT as int);
        lemma_mul_bound(a.z as int, p.z as int, AXIS_LIMIT as int, HULL_POINT_LIMIT as int);
    }
    (a.x as i128) * p.x + (a.y as i128) * p.y + (a.z as i128) * p.z
}

/// Projection interval of the polyhedron corners onto an axis: bounds
/// that hold for every corner and are attained by some corner.
fn proj_hull_bounds(a: &Vector3, h: &FrustumPolyhedron) -> (r: (i128, i128))
    requires
        vec_bounded(*a, AXIS_LIMIT as int),
        hull_wf(*h),
    ensures
        forall|i: int| 0 <= i < 8 ==> r.0 <= dotw(*a, #[trigger] h.points[i]) <= r.1,
        exists|i: int| 0 <= i < 8 && r.0 == dotw(*a, #[trigger] h.points[i]),
        exists|i: int| 0 <= i < 8 && r.1 == dotw(*a, #[trigger] h.points[i]),
{
    let p0 = h.points[0];
    let mut lo = dotw_i128(a, &p0);
    let mut hi = lo;
    let mut i: usize = 1;
    while i < 8
        invariant
            1 <= i <= 8,
            vec_bounded(*a, AXIS_LIMIT as int),
            hull_wf(*h),
            forall|k: int| 0 <= k < i ==> lo <= dotw(*a, #[trigger] h.points[k]) <= hi,
            exists|k: int| 0 <= k < i && lo == dotw(*a, #[trigger] h.points[k]),
            exists|k: int| 0 <= k < i && hi == dotw(*a, #[trigger] h.points[k]),
        decreases 8 - i,
    {
        let pi = h.points[i];
        let d = dotw_i128(a, &pi);
        if d < lo {
            lo = d;
        }
        if d > hi {
            hi = d;
        }
        i += 1;
    }
    (lo, hi)
}

/// Projection interval of the eight box corners onto an axis.
fn proj_box_bounds(a: &Vector3, ws: &[Vector3; 8]) -> (r: (i128, i128))
    requires
        vec_bounded(*a, AXIS_LIMIT as int),
        forall|i: int| 0 <= i < 8 ==> vec_bounded(#[trigger] ws[i], OBB_CORNER_LIMIT as int),
    ensures
        forall|j: int| 0 <= j < 8 ==> r.0 <= sdot(*a, #[trigger] ws[j]) <= r.1,
        exists|j: int| 0 <= j < 8 && r.0 == sdot(*a, #[trigger] ws[j]),
        exists|j: int| 0 <= j < 8 && r.1 == sdot(*a, #[trigger] ws[j]),
        -BPROJ_LIMIT <= r.0 <= BPROJ_LIMIT,
        -BPROJ_LIMIT <= r.1 <= BPROJ_LIMIT,
{
    let w0 = Vector3 { x: ws[0].x, y: ws[0].y, z: ws[0].z };
    proof {
        crate::vector::lemma_sdot_bound(*a, w0, AXIS_LIMIT as int, OBB_CORNER_LIMIT as int);
    }
    let mut lo = dot3_i128(a, &w0);
    let mut hi = lo;
    let mut i: usize = 1;
    while i < 8
        invariant
            1 <= i <= 8,
            vec_bounded(*a, AXIS_LIMIT as int),
            forall|k: int| 0 <= k < 8 ==> vec_bounded(#[trigger] ws[k], OBB_CORNER_LIMIT as int),
            forall|k: int| 0 <= k < i ==> lo <= sdot(*a, #[trigger] ws[k]) <= hi,
            exists|k: int| 0 <= k < i && lo == sdot(*a, #[trigger] ws[k]),
            exists|k: int| 0 <= k < i && hi == sdot(*a, #[trigger] ws[k]),
            -BPROJ_LIMIT <= lo <= BPROJ_LIMIT,
            -BPROJ_LIMIT <= hi <= BPROJ_LIMIT,
        decreases 8 - i,
    {
        let wi = Vector3 { x: ws[i].x, y: ws[i].y, z: ws[i].z };
        proof {
            crate::vector::lemma_sdot_bound(*a, wi, AXIS_LIMIT as int, OBB_CORNER_LIMIT as int);
        }
        let d = dot3_i128(a, &wi);
        if d < lo {
            lo = d;
        }
        if d > hi {
            hi = d;
        }
        i += 1;
    }
    (lo, hi)
}

/// Exact separating-axis verdict for one axis.
fn axis_separates_exec(h: &FrustumPolyhedron, ws: &[Vector3; 8], a: &Vector3) -> (r: bool)
    requires
        hull_wf(*h),
        forall|i: int| 0 <= i < 8 ==> vec_bounded(#[trigger] ws[i], OBB_CORNER_LIMIT as int),
        vec_bounded(*a, AXIS_LIMIT as int),
    ensures
        r == axis_separates(*h, *ws, *a),
{
    let (hlo, hhi) = proj_hull_bounds(a, h);
    let (blo, bhi) = proj_box_bounds(a, ws);
    proof {
        lemma_mul_bound(h.den as int, blo as int, DEN_LIMIT as int, BPROJ_LIMIT as int);
        lemma_mul_bound(h.den as int, bhi as int, DEN_LIMIT as int, BPROJ_LIMIT as int);
    }
    let sep_below = hhi < h.den * blo;
    let sep_above = h.den * bhi < hlo;
    proof {
        if sep_below {
            assert forall|i: int, j: int| #![trigger h.points[i], ws[j]] 0 <= i < 8 && 0 <= j < 8
                implies dotw(*a, h.points[i]) < h.den * sdot(*a, ws[j]) by {
                lemma_mul_le_mono(h.den as int, blo as int, sdot(*a, ws[j]));
            }
        } else {
            let i0 = choose|i: int| 0 <= i < 8 && hhi == dotw(*a, #[trigger] h.points[i]);
            let j0 = choose|j: int| 0 <= j < 8 && blo == sdot(*a, #[trigger] ws[j]);
            assert(dotw(*a, h.points[i0]) >= h.den * sdot(*a, ws[j0]));
        }
        if sep_above {
            assert forall|i: int, j: int| #![trigger h.points[i], ws[j]] 0 <= i < 8 && 0 <= j < 8
                implies h.den * sdot(*a, ws[j]) < dotw(*a, h.points[i]) by {
                lemma_mul_le_mono(h.den as int, sdot(*a, ws[j]), bhi as int);
            }
        } else {
            let i1 = choose|i: int| 0 <= i < 8 && hlo == dotw(*a, #[trigger] h.points[i]);
            let j1 = choose|j: int| 0 <= j < 8 && bhi == sdot(*a, #[trigger] ws[j]);
            assert(h.den * sdot(*a, ws[j1]) >= dotw(*a, h.points[i1]));
        }
    }
    sep_below || sep_above
}

/// The three face-normal axes of the stored box.
fn cross_axes(ws: &[Vector3; 8]) -> (r: (Vector3, Vector3, Vector3))
    requires
        forall|i: int| 0 <= i < 8 ==> vec_bounded(#[trigger] ws[i], OBB_CORNER_LIMIT as int),
    ensures
        r.0 == box_axis(*ws, 0),
        r.1 == box_axis(*ws, 1),
        r.2 == box_axis(*ws, 2),
        vec_bounded(r.0, AXIS_LIMIT as int),
        vec_bounded(r.1, AXIS_LIMIT as int),
        vec_bounded(r.2, AXIS_LIMIT as int),
{
    let e1 = Vector3 { x: ws[2].x - ws[0].x, y: ws[2].y - ws[0].y, z: ws[2].z - ws[0].z };
    let e2 = Vector3 { x: ws[3].x - ws[0].x, y: ws[3].y - ws[0].y, z: ws[3].z - ws[0].z };
    let e3 = Vector3 { x: ws[4].x - ws[0].x, y: ws[4].y - ws[0].y, z: ws[4].z - ws[0].z };
    (cross_i64(&e1, &e2), cross_i64(&e2, &e3), cross_i64(&e3, &e1))
}

/// Exact cross product of bounded edge vectors.
fn cross_i64(a: &Vector3, b: &Vector3) -> (r: Vector3)
    requires
        vec_bounded(*a, 98560),
        vec_bounded(*b, 98560),
    ensures
        r == vcross(*a, *b),
        vec_bounded(r, AXIS_LIMIT as int),
{
    proof {
        lemma_mul_bound(a.y as int, b.z as int, 98560, 98560);
        lemma_mul_bound(a.z as int, b.y as int, 98560, 98560);
        lemma_mul_bound(a.z as int, b.x as int, 98560, 98560);
        lemma_mul_bound(a.x as int, b.z as int, 98560, 98560);
        lemma_mul_bound(a.x as int, b.y as int, 98560, 98560);
        lemma_mul_bound(a.y as int, b.x as int, 98560, 98560);
    }
    Vector3 { x: a.y * b.z - a.z * b.y, y: a.z * b.x - a.x * b.z, z: a.x * b.y - a.y * b.x }
}


/// Difference of two polyhedron corners: one hull edge direction.
fn subw(a: &Vector3W, b: &Vector3W) -> (r: Vector3W)
    requires
        vecw_bounded(*a, HULL_POINT_LIMIT as int),
        vecw_bounded(*b, HULL_POINT_LIMIT as int),
    ensures
        r == vsubw(*a, *b),
        vecw_bounded(r, HEDGE_LIMIT as int),
{
    Vector3W { x: a.x - b.x, y: a.y - b.y, z: a.z - b.z }
}

/// Exact cross product of two hull-scale directions.
fn crossw(a: &Vector3W, b: &Vector3W) -> (r: Vector3W)
    requires
        vecw_bounded(*a, HEDGE_LIMIT as int),
        vecw_bounded(*b, HEDGE_LIMIT as int),
    ensures
        r == vcrossw(*a, *b),
        vecw_bounded(r, AXISW_LIMIT as int),
{
    proof {
        lemma_mul_bound(a.y as int, b.z as int, HEDGE_LIMIT as int, HEDGE_LIMIT as int);
        lemma_mul_bound(a.z as int, b.y as int, HEDGE_LIMIT as int, HEDGE_LIMIT as int);
        lemma_mul_bound(a.z as int, b.x as int, HEDGE_LIMIT as int, HEDGE_LIMIT as int);
        lemma_mul_bound(a.x as int, b.z as int, HEDGE_LIMIT as int, HEDGE_LIMIT as int);
        lemma_mul_bound(a.x as int, b.y as int, HEDGE_LIMIT as int, HEDGE_LIMIT as int);
        lemma_mul_bound(a.y as int, b.x as int, HEDGE_LIMIT as int, HEDGE_LIMIT as int);
    }
    Vector3W { x: a.y * b.z - a.z * b.y, y: a.z * b.x - a.x * b.z, z: a.x * b.y - a.y * b.x }
}

/// Exact projection of one box corner onto a hull-derived axis.
fn dotwn_i128(a: &Vector3W, w: &Vector3) -> (r: i128)
    requires
        vecw_bounded(*a, AXISW_LIMIT as int),
        vec_bounded(*w, OBB_CORNER_LIMIT as int),
    ensures
        r == dotwn(*a, *w),
        -BDOTW_LIMIT <= r <= BDOTW_LIMIT,
{
    proof {
        lemma_mul_bound(a.x as int, w.x as int, AXISW_LIMIT as int, OBB_CORNER_LIMIT as int);
        lemma_mul_bound(a.y as int, w.y as int, AXISW_LIMIT as int, OBB_CORNER_LIMIT as int);
        lemma_mul_bound(a.z as int, w.z as int, AXISW_LIMIT as int, OBB_CORNER_LIMIT as int);
    }
    a.x * (w.x as i128) + a.y * (w.y as i128) + a.z * (w.z as i128)
}

/// Exact projection of one corner numerator onto a hull-derived axis,
/// carried in 256-bit arithmetic.
fn wide_dotww(a: &Vector3W, p: &Vector3W) -> (r: WideInt)
    requires
        vecw_bounded(*a, AXISW_LIMIT as int),
        vecw_bounded(*p, HULL_POINT_LIMIT as int),
    ensures
        wide_val(r) == dotww(*a, *p),
{
    let wx = wide_mul(a.x, p.x);
    let wy = wide_mul(a.y, p.y);
    let wz = wide_mul(a.z, p.z);
    proof {
        lemma_mul_bound(a.x as int, p.x as int, AXISW_LIMIT as int, HULL_POINT_LIMIT as int);
        lemma_mul_bound(a.y as int, p.y as int, AXISW_LIMIT as int, HULL_POINT_LIMIT as int);
        lemma_mul_bound(a.z as int, p.z as int, AXISW_LIMIT as int, HULL_POINT_LIMIT as int);
        lemma_wide_hi_headroom(wx, AXISW_LIMIT as int * (HULL_POINT_LIMIT as int));
        lemma_wide_hi_headroom(wy, AXISW_LIMIT as int * (HULL_POINT_LIMIT as int));
        lemma_wide_hi_headroom(wz, AXISW_LIMIT as int * (HULL_POINT_LIMIT as int));
    }
    let sxy = wide_add(&wx, &wy);
    proof {
        lemma_wide_hi_headroom(sxy, 2 * (AXISW_LIMIT as int * (HULL_POINT_LIMIT as int)));
    }
    wide_add(&sxy, &wz)
}

/// Projection interval of the polyhedron corners onto a hull-derived
/// axis: wide bounds that hold for every corner and are attained.
fn proj_hull_wide(a: &Vector3W, h: &FrustumPolyhedron) -> (r: (WideInt, WideInt))
    requires
        vecw_bounded(*a, AXISW_LIMIT as int),
        hull_wf(*h),
    ensures
        forall|i: int| 0 <= i < 8 ==> wide_val(r.0) <= dotww(*a, #[trigger] h.points[i])
            <= wide_val(r.1),
        exists|i: int| 0 <= i < 8 && wide_val(r.0) == dotww(*a, #[trigger] h.points[i]),
        exists|i: int| 0 <= i < 8 && wide_val(r.1) == dotww(*a, #[trigger] h.points[i]),
{
    let p0 = h.points[0];
    let mut lo = wide_dotww(a, &p0);
    let mut hi = lo;
    let mut i: usize = 1;
    while i < 8
        invariant
            1 <= i <= 8,
            vecw_bounded(*a, AXISW_LIMIT as int),
            hull_wf(*h),
            forall|k: int| 0 <= k < i ==> wide_val(lo) <= dotww(*a, #[trigger] h.points[k])
                <= wide_val(hi),
            exists|k: int| 0 <= k < i && wide_val(lo) == dotww(*a, #[trigger] h.points[k]),
            exists|k: int| 0 <= k < i && wide_val(hi) == dotww(*a, #[trigger] h.points[k]),
        decreases 8 - i,
    {
        let pi = h.points[i];
        let d = wide_dotww(a, &pi);
        if wide_lt(&d, &lo) {
            lo = d;
        }
        if wide_lt(&hi, &d) {
            hi = d;
        }
        i += 1;
    }
    (lo, hi)
}

/// Projection interval of the denominator-scaled box corners onto a
/// hull-derived axis.
fn proj_box_wide(a: &Vector3W, ws: &[Vector3; 8], den: i128) -> (r: (WideInt, WideInt))
    requires
        vecw_bounded(*a, AXISW_LIMIT as int),
        forall|j: int| 0 <= j < 8 ==> vec_bounded(#[trigger] ws[j], OBB_CORNER_LIMIT as int),
        0 < den <= DEN_LIMIT,
    ensures
        forall|j: int| 0 <= j < 8 ==> wide_val(r.0) <= den * dotwn(*a, #[trigger] ws[j])
            <= wide_val(r.1),
        exists|j: int| 0 <= j < 8 && wide_val(r.0) == den * dotwn(*a, #[trigger] ws[j]),
        exists|j: int| 0 <= j < 8 && wide_val(r.1) == den * dotwn(*a, #[trigger] ws[j]),
{
    let w0 = Vector3 { x: ws[0].x, y: ws[0].y, z: ws[0].z };
    let d0 = dotwn_i128(a, &w0);
    let mut lo = wide_mul(den, d0);
    let mut hi = lo;
    let mut j: usize = 1;
    while j < 8
        invariant
            1 <= j <= 8,
            vecw_bounded(*a, AXISW_LIMIT as int),
            forall|k: int| 0 <= k < 8 ==> vec_bounded(#[trigger] ws[k], OBB_CORNER_LIMIT as int),
            0 < den <= DEN_LIMIT,
            forall|k: int| 0 <= k < j ==> wide_val(lo) <= den * dotwn(*a, #[trigger] ws[k])
                <= wide_val(hi),
            exists|k: int| 0 <= k < j && wide_val(lo) == den * dotwn(*a, #[trigger] ws[k]),
            exists|k: int| 0 <= k < j && wide_val(hi) == den * dotwn(*a, #[trigger] ws[k]),
        decreases 8 - j,
    {
        let wj = Vector3 { x: ws[j].x, y: ws[j].y, z: ws[j].z };
        let dj = dotwn_i128(a, &wj);
        let b = wide_mul(den, dj);
        if wide_lt(&b, &lo) {
            lo = b;
        }
        if wide_lt(&hi, &b) {
            hi = b;
        }
        j += 1;
    }
    (lo, hi)
}

/// Exact separating-axis verdict for one hull-derived axis, in 256-bit
/// arithmetic.
fn axis_separates_wide(h: &FrustumPolyhedron, ws: &[Vector3; 8], a: &Vector3W) -> (r: bool)
    requires
        hull_wf(*h),
        forall|i: int| 0 <= i < 8 ==> vec_bounded(#[trigger] ws[i], OBB_CORNER_LIMIT as int),
        vecw_bounded(*a, AXISW_LIMIT as int),
    ensures
        r == axis_separates_w(*h, *ws, *a),
{
    let (hlo, hhi) = proj_hull_wide(a, h);
    let (blo, bhi) = proj_box_wide(a, ws, h.den);
    let sep_below = wide_lt(&hhi, &blo);
    let sep_above = wide_lt(&bhi, &hlo);
    proof {
        if sep_below {
            assert forall|i: int, j: int| #![trigger h.points[i], ws[j]] 0 <= i < 8 && 0 <= j < 8
                implies dotww(*a, h.points[i]) < h.den * dotwn(*a, ws[j]) by {}
        } else {
            let i0 = choose|i: int| 0 <= i < 8 && wide_val(hhi) == dotww(*a,
                #[trigger] h.points[i]);
            let j0 = choose|j: int| 0 <= j < 8 && wide_val(blo) == h.den * dotwn(*a,
                #[trigger] ws[j]);
            assert(dotww(*a, h.points[i0]) >= h.den * dotwn(*a, ws[j0]));
        }
        if sep_above {
            assert forall|i: int, j: int| #![trigger h.points[i], ws[j]] 0 <= i < 8 && 0 <= j < 8
                implies h.den * dotwn(*a, ws[j]) < dotww(*a, h.points[i]) by {}
        } else {
            let i1 = choose|i: int| 0 <= i < 8 && wide_val(hlo) == dotww(*a,
                #[trigger] h.points[i]);
            let j1 = choose|j: int| 0 <= j < 8 && wide_val(bhi) == h.den * dotwn(*a,
                #[trigger] ws[j]);
            assert(h.den * dotwn(*a, ws[j1]) >= dotww(*a, h.points[i1]));
        }
    }
    sep_below || sep_above
}

/// The three edge directions of the stored box.
fn box_edges(ws: &[Vector3; 8]) -> (r: (Vector3, Vector3, Vector3))
    requires
        forall|i: int| 0 <= i < 8 ==> vec_bounded(#[trigger] ws[i], OBB_CORNER_LIMIT as int),
    ensures
        r.0 == box_edge(*ws, 0),
        r.1 == box_edge(*ws, 1),
        r.2 == box_edge(*ws, 2),
        vec_bounded(r.0, 98560),
        vec_bounded(r.1, 98560),
        vec_bounded(r.2, 98560),
{
    let e1 = Vector3 { x: ws[2].x - ws[0].x, y: ws[2].y - ws[0].y, z: ws[2].z - ws[0].z };
    let e2 = Vector3 { x: ws[3].x - ws[0].x, y: ws[3].y - ws[0].y, z: ws[3].z - ws[0].z };
    let e3 = Vector3 { x: ws[4].x - ws[0].x, y: ws[4].y - ws[0].y, z: ws[4].z - ws[0].z };
    (e1, e2, e3)
}

/// The full per-box verdict of `polyhedron_hits_corners`.
#[verifier::rlimit(100)]
pub(crate) fn polyhedron_hits(h: &FrustumPolyhedron, ws: &[Vector3; 8]) -> (r: bool)
    requires
        hull_wf(*h),
        forall|i: int| 0 <= i < 8 ==> vec_bounded(#[trigger] ws[i], OBB_CORNER_LIMIT as int),
    ensures
        r == polyhedron_hits_corners(*h, *ws),
{
    let (lo, hi) = env8(ws);
    proof {
        lemma_env_bounded(*ws);
    }
    if !overlaps_aabb(h, &lo, &hi) {
        return false;
    }
    let (a0, a1, a2) = cross_axes(ws);
    if axis_separates_exec(h, ws, &a0) {
        return false;
    }
    if axis_separates_exec(h, ws, &a1) {
        return false;
    }
    if axis_separates_exec(h, ws, &a2) {
        return false;
    }
    let p0w = h.points[0];
    let p1w = h.points[1];
    let p3w = h.points[3];
    let p4w = h.points[4];
    let he0 = subw(&p0w, &p3w);
    let he1 = subw(&p0w, &p4w);
    let he2 = subw(&p0w, &p1w);
    let hn0 = crossw(&he0, &he1);
    let hn1 = crossw(&he1, &he2);
    let hn2 = crossw(&he2, &he0);
    proof {
        assert(he0 == hull_edge(*h, 0));
        assert(he1 == hull_edge(*h, 1));
        assert(he2 == hull_edge(*h, 2));
    }
    if axis_separates_wide(h, ws, &hn0) {
        return false;
    }
    if axis_separates_wide(h, ws, &hn1) {
        return false;
    }
    if axis_separates_wide(h, ws, &hn2) {
        return false;
    }
    let (be0, be1, be2) = box_edges(ws);
    let bw0 = Vector3W { x: be0.x as i128, y: be0.y as i128, z: be0.z as i128 };
    let bw1 = Vector3W { x: be1.x as i128, y: be1.y as i128, z: be1.z as i128 };
    let bw2 = Vector3W { x: be2.x as i128, y: be2.y as i128, z: be2.z as i128 };
    proof {
        assert(bw0 == widen(box_edge(*ws, 0)));
        assert(bw1 == widen(box_edge(*ws, 1)));
        assert(bw2 == widen(box_edge(*ws, 2)));
    }
    let e00 = crossw(&he0, &bw0);
    let e01 = crossw(&he0, &bw1);
    let e02 = crossw(&he0, &bw2);
    let e10 = crossw(&he1, &bw0);
    let e11 = crossw(&he1, &bw1);
    let e12 = crossw(&he1, &bw2);
    let e20 = crossw(&he2, &bw0);
    let e21 = crossw(&he2, &bw1);
    let e22 = crossw(&he2, &bw2);
    let s00 = axis_separates_wide(h, ws, &e00);
    let s01 = axis_separates_wide(h, ws, &e01);
    let s02 = axis_separates_wide(h, ws, &e02);
    let s10 = axis_separates_wide(h, ws, &e10);
    let s11 = axis_separates_wide(h, ws, &e11);
    let s12 = axis_separates_wide(h, ws, &e12);
    let s20 = axis_separates_wide(h, ws, &e20);
    let s21 = axis_separates_wide(h, ws, &e21);
    let s22 = axis_separates_wide(h, ws, &e22);
    proof {
        assert(e00 == edge_axis(*h, *ws, 0, 0));
        assert(e01 == edge_axis(*h, *ws, 0, 1));
        assert(e02 == edge_axis(*h, *ws, 0, 2));
        assert(e10 == edge_axis(*h, *ws, 1, 0));
        assert(e11 == edge_axis(*h, *ws, 1, 1));
        assert(e12 == edge_axis(*h, *ws, 1, 2));
        assert(e20 == edge_axis(*h, *ws, 2, 0));
        assert(e21 == edge_axis(*h, *ws, 2, 1));
        assert(e22 == edge_axis(*h, *ws, 2, 2));
    }
    if s00 || s01 || s02 || s10 || s11 || s12 || s20 || s21 || s22 {
        return false;
    }
    proof {
        assert forall|i: int, j: int| 0 <= i < 3 && 0 <= j < 3 implies !axis_separates_w(*h, *ws,
            #[trigger] edge_axis(*h, *ws, i, j)) by {}
    }
    true
}

/// The envelope of bounded corners is bounded.
pub proof fn lemma_env_bounded(ws: [Vector3; 8])
    requires
        forall|i: int| 0 <= i < 8 ==> vec_bounded(#[trigger] ws[i], OBB_CORNER_LIMIT as int),
    ensures
        vec_bounded(corners_env_min(ws), OBB_CORNER_LIMIT as int),
        vec_bounded(corners_env_max(ws), OBB_CORNER_LIMIT as int),
{
    assert(vec_bounded(ws[0], OBB_CORNER_LIMIT as int));
    assert(vec_bounded(ws[1], OBB_CORNER_LIMIT as int));
    assert(vec_bounded(ws[2], OBB_CORNER_LIMIT as int));
    assert(vec_bounded(ws[3], OBB_CORNER_LIMIT as int));
    assert(vec_bounded(ws[4], OBB_CORNER_LIMIT as int));
    assert(vec_bounded(ws[5], OBB_CORNER_LIMIT as int));
    assert(vec_bounded(ws[6], OBB_CORNER_LIMIT as int));
    assert(vec_bounded(ws[7], OBB_CORNER_LIMIT as int));
}

/// One stored entry of the spatial index: the key, the envelope kept
/// for the broad phase, and the box corners kept for the exact test.
#[derive(Debug, Clone, Copy)]
pub struct TreeEntry {
    pub key: BoundingKey,
    pub aabb_min: Vector3,
    pub aabb_max: Vector3,
    pub corners: [Vector3; 8],
}

/// Stored entries carry bounded corners and a truthful envelope.
pub open spec fn entry_wf(e: TreeEntry) -> bool {
    &&& forall|i: int| 0 <= i < 8 ==> vec_bounded(#[trigger] e.corners[i], OBB_CORNER_LIMIT
        as int)
    &&& e.aabb_min == corners_env_min(e.corners)
    &&& e.aabb_max == corners_env_max(e.corners)
}

pub open spec fn tree_wf(s: Seq<TreeEntry>) -> bool {
    forall|i: int| 0 <= i < s.len() ==> entry_wf(#[trigger] s[i])
}

/// The entry `add` stores for one object: the retained world corners of
/// its box are the tightest enclosing parallelepiped (the oriented box
/// of the transformed extent), and their envelope is its exact
/// axis-aligned bound.
pub open spec fn tree_entry_spec(key: BoundingKey, info: BoundingInfo) -> TreeEntry {
    TreeEntry {
        key,
        aabb_min: corners_env_min(info.bounding_box.vectors_world),
        aabb_max: corners_env_max(info.bounding_box.vectors_world),
        corners: info.bounding_box.vectors_world,
    }
}

/// First entry at or after `i` stored under `key`, or -1.
pub open spec fn find_key_from(s: Seq<TreeEntry>, key: BoundingKey, i: int) -> int
    decreases s.len() - i,
{
    if i < 0 || i >= s.len() {
        -1
    } else if s[i].key == key {
        i
    } else {
        find_key_from(s, key, i + 1)
    }
}

/// What `remove` does: delete the first entry stored under the key; an
/// unknown key is a silent no-op.
pub open spec fn tree_remove_spec(s: Seq<TreeEntry>, key: BoundingKey) -> Seq<TreeEntry> {
    let f = find_key_from(s, key, 0);
    if f >= 0 {
        s.remove(f)
    } else {
        s
    }
}

/// Keys of the first `n` entries whose box passes the broad and narrow
/// phases, in storage order.
pub open spec fn tree_check_upto(s: Seq<TreeEntry>, h: FrustumPolyhedron, n: int)
    -> Seq<BoundingKey>
    decreases n,
{
    if n <= 0 {
        Seq::empty()
    } else {
        let pre = tree_check_upto(s, h, n - 1);
        if polyhedron_hits_corners(h, s[n - 1].corners) {
            pre.push(s[n - 1].key)
        } else {
            pre
        }
    }
}

/// What a polyhedron query returns: the keys of exactly the entries
/// whose stored box passes the broad phase and the exact
/// separating-axis test of `polyhedron_hits_corners`.
pub open spec fn tree_check_spec(s: Seq<TreeEntry>, h: FrustumPolyhedron) -> Seq<BoundingKey> {
    tree_check_upto(s, h, s.len() as int)
}

/// Keys of the first `n` entries whose corners pass the conservative
/// plane test, in storage order.
pub open spec fn tree_plane_check_upto(s: Seq<TreeEntry>, fp: FrustumPlanes, n: int)
    -> Seq<BoundingKey>
    decreases n,
{
    if n <= 0 {
        Seq::empty()
    } else {
        let pre = tree_plane_check_upto(s, fp, n - 1);
        if box_in_frustum(fp, s[n - 1].corners) {
            pre.push(s[n - 1].key)
        } else {
            pre
        }
    }
}

pub open spec fn tree_plane_check_spec(s: Seq<TreeEntry>, fp: FrustumPlanes) -> Seq<BoundingKey> {
    tree_plane_check_upto(s, fp, s.len() as int)
}

/// Spatial index of keyed oriented boxes: each entry keeps the exact
/// envelope for the broad phase and the exact corners for the narrow
/// phase, and queries test the stored volumes against a frustum
/// polyhedron.
pub struct BoundingTree {
    entries: Vec<TreeEntry>,
}

impl View for BoundingTree {
    type V = Seq<TreeEntry>;

    closed spec fn view(&self) -> Seq<TreeEntry> {
        self.entries@
    }
}

impl Default for BoundingTree {
    /// An empty index.
    fn default() -> (r: BoundingTree)
        ensures
            r@ == Seq::<TreeEntry>::empty(),
            tree_wf(r@),
    {
        let r = BoundingTree { entries: Vec::new() };
        proof {
            assert(r@ =~= Seq::<TreeEntry>::empty());
        }
        r
    }
}

impl TBoundingInfoCalc for BoundingTree {
    open spec fn wf(&self) -> bool {
        tree_wf(self@)
    }

    open spec fn add_pre(&self, info: BoundingInfo) -> bool {
        forall|i: int| 0 <= i < 8 ==> vec_bounded(#[trigger] info.bounding_box.vectors_world[i],
            OBB_CORNER_LIMIT as int)
    }

    open spec fn tree_query_pre(&self) -> bool {
        true
    }

    open spec fn add_spec(&self, key: BoundingKey, info: BoundingInfo) -> Seq<TreeEntry> {
        self@.push(tree_entry_spec(key, info))
    }

    open spec fn remove_spec(&self, key: BoundingKey) -> Seq<TreeEntry> {
        tree_remove_spec(self@, key)
    }

    open spec fn check_spec(&self, fp: FrustumPlanes) -> Seq<BoundingKey> {
        tree_plane_check_spec(self@, fp)
    }

    open spec fn check_tree_spec(&self, hull: FrustumPolyhedron) -> Seq<BoundingKey> {
        tree_check_spec(self@, hull)
    }

    /// Store the object's oriented box under its key: the retained
    /// world corners with their exact envelope (see `tree_entry_spec`).
    fn add(&mut self, key: BoundingKey, info: BoundingInfo) {
        let ws = info.bounding_box.vectors_world;
        let (lo, hi) = env8(&ws);
        let entry = TreeEntry { key, aabb_min: lo, aabb_max: hi, corners: ws };
        self.entries.push(entry);
        proof {
            assert(entry == tree_entry_spec(key, info));
            assert forall|i: int| 0 <= i < self@.len() implies entry_wf(#[trigger] self@[i]) by {
                if i < old(self)@.len() {
                    assert(self@[i] == old(self)@[i]);
                }
            }
        }
    }

    /// Delete the entry stored under `key`; an unknown key is a silent
    /// no-op (see `tree_remove_spec`).
    fn remove(&mut self, key: BoundingKey) {
        let len = self.entries.len();
        let mut i: usize = 0;
        while i < len
            invariant
                0 <= i <= len,
                len == self@.len(),
                self@ == old(self)@,
                tree_wf(self@),
                find_key_from(self@, key, 0) == find_key_from(self@, key, i as int),
            decreases len - i,
        {
            if self.entries[i].key == key {
                proof {
                    assert(find_key_from(old(self)@, key, i as int) == i);
                }
                self.entries.remove(i);
                proof {
                    assert forall|j: int| 0 <= j < self@.len() implies entry_wf(
                        #[trigger] self@[j]) by {
                        if j < i {
                            assert(self@[j] == old(self)@[j]);
                        } else {
                            assert(self@[j] == old(self)@[j + 1]);
                        }
                    }
                }
                return;
            }
            i += 1;
            proof {
                assert(find_key_from(self@, key, i - 1) == find_key_from(self@, key, i as int));
            }
        }
        proof {
            assert(find_key_from(self@, key, len as int) == -1);
        }
    }

    /// Query against a frustum polyhedron: the broad-phase envelope
    /// filter, then the exact separating-axis test per surviving box
    /// (see `polyhedron_hits_corners`); overwrite `result` with the
    /// matching keys in storage order.
    fn check_boundings_of_tree(&self, frustum: &FrustumPolyhedron,
        result: &mut Vec<BoundingKey>) {
        let len = self.entries.len();
        let mut res_vec: Vec<BoundingKey> = Vec::new();
        let mut i: usize = 0;
        while i < len
            invariant
                0 <= i <= len,
                len == self@.len(),
                tree_wf(self@),
                hull_wf(*frustum),
                res_vec@ == tree_check_upto(self@, *frustum, i as int),
            decreases len - i,
        {
            let ws = self.entries[i].corners;
            if polyhedron_hits(frustum, &ws) {
                res_vec.push(self.entries[i].key);
            }
            i += 1;
        }
        *result = res_vec;
    }

    /// Plane-protocol query over the stored boxes: the conservative
    /// corner test of the box volume against the six frustum planes;
    /// overwrite `result` with the matching keys in storage order.
    fn check_boundings(&self, frustum_planes: &FrustumPlanes, result: &mut Vec<BoundingKey>) {
        let len = self.entries.len();
        let mut res_vec: Vec<BoundingKey> = Vec::new();
        let mut i: usize = 0;
        while i < len
            invariant
                0 <= i <= len,
                len == self@.len(),
                tree_wf(self@),
                frustum_wf(*frustum_planes),
                res_vec@ == tree_plane_check_upto(self@, *frustum_planes, i as int),
            decreases len - i,
        {
            let ws = self.entries[i].corners;
            proof {
                assert forall|k: int| 0 <= k < 8 implies vec_bounded(#[trigger] ws[k],
                    WORLD_LIMIT as int) by {
                    assert(entry_wf(self@[i as int]));
                    assert(vec_bounded(ws[k], OBB_CORNER_LIMIT as int));
                }
            }
            if crate::culling::bounding_box::corners_in_frustum(frustum_planes, &ws) {
                res_vec.push(self.entries[i].key);
            }
            i += 1;
        }
        *result = res_vec;
    }
}

} // verus!
