//! World-space bounding sphere with exact squared radii.
//!
//! The local radius is half the diagonal of `[min, max]` and the world
//! radius scales it by the largest axis scale of the transform, both
//! irrational in general. The sphere therefore stores squares: `diam2`
//! is the squared diameter (four times the squared radius), and the
//! plane comparison `dist <= -radius` is carried out exactly on squares,
//! using the squared normal length the plane records.

use vstd::prelude::*;

verus! {

use crate::MAX_ABS;
use crate::matrix::{Matrix4, mat_bounded, identity_spec};
use crate::plane::Plane;
use crate::frustum::{FrustumPlanes, frustum_wf};
use crate::vector::{Vector3, sdot, vec_bounded, lemma_mul_bound, lemma_sdot_bound, dot3_i128};

/// Bound on doubled world centers: an affine image of a doubled local
/// center plus a doubled translation.
pub const CENTER2_LIMIT: i64 = 6 * MAX_ABS * MAX_ABS + 2 * MAX_ABS;

/// Bound on the squared local diameter `|max - min|^2`:
/// `12 * MAX_ABS^2`.
pub const DIAM2_LOCAL_LIMIT: i128 = 824633720832;

/// Bound on the largest squared axis scale of a bounded matrix:
/// `3 * MAX_ABS^2`.
pub const SCALE2_LIMIT: i128 = 206158430208;

/// Bound on the squared world diameter:
/// `DIAM2_LOCAL_LIMIT * SCALE2_LIMIT`.
pub const DIAM2_LIMIT: i128 = 170005193383307227693056;

/// Bound on the doubled scaled center distance `scenter_dist2`:
/// `3 * PLANE_LIMIT * CENTER2_LIMIT + 2 * PLANE_LIMIT`.
pub const SDIST_LIMIT: i128 = 648519170976120832;

#[derive(Debug, Clone, Copy, PartialEq, Eq, Structural)]
pub struct BoundingSphere {
    /// Squared local diameter `|max - min|^2`, i.e. `(2 * radius)^2`.
    pub diam2: i128,
    /// Twice the local center: `min + max`.
    pub center2: Vector3,
    /// Squared world diameter: `diam2` times the largest squared axis
    /// scale of the world transform.
    pub diam2_world: i128,
    /// Twice the world center.
    pub center2_world: Vector3,
}

/// Squared length of the column `j` of the upper-left 3x3 part.
pub open spec fn scol_norm2(m: Matrix4, j: int) -> int {
    if j == 0 {
        m.m00 * m.m00 + m.m10 * m.m10 + m.m20 * m.m20
    } else if j == 1 {
        m.m01 * m.m01 + m.m11 * m.m11 + m.m21 * m.m21
    } else {
        m.m02 * m.m02 + m.m12 * m.m12 + m.m22 * m.m22
    }
}

/// The squared largest axis scale: the largest of the three squared
/// column lengths of the linear part.
pub open spec fn max_axis_scale2(m: Matrix4) -> int {
    let a = scol_norm2(m, 0);
    let b = scol_norm2(m, 1);
    let c = scol_norm2(m, 2);
    if a >= b && a >= c {
        a
    } else if b >= c {
        b
    } else {
        c
    }
}

/// Affine image of a doubled point: `linear * v + 2 * translation`,
/// which is twice the transform of `v / 2`.
pub open spec fn sxform2(m: Matrix4, v: Vector3) -> Vector3 {
    Vector3 {
        x: (m.m00 * v.x + m.m01 * v.y + m.m02 * v.z + 2 * m.m03) as i64,
        y: (m.m10 * v.x + m.m11 * v.y + m.m12 * v.z + 2 * m.m13) as i64,
        z: (m.m20 * v.x + m.m21 * v.y + m.m22 * v.z + 2 * m.m23) as i64,
    }
}

/// What `update` produces: under the identity the local sphere carries
/// over; otherwise the center moves with the transform and the squared
/// diameter scales by the largest squared axis scale.
pub open spec fn sphere_update_spec(s: BoundingSphere, world: Matrix4) -> BoundingSphere {
    if world == identity_spec() {
        BoundingSphere { diam2: s.diam2, center2: s.center2, diam2_world: s.diam2,
            center2_world: s.center2 }
    } else {
        BoundingSphere {
            diam2: s.diam2,
            center2: s.center2,
            diam2_world: (s.diam2 * max_axis_scale2(world)) as i128,
            center2_world: sxform2(world, s.center2),
        }
    }
}

/// What `reset` produces: the diagonal-based local sphere of
/// `[min, max]`, then updated by the world transform.
pub open spec fn sphere_reset_spec(min: Vector3, max: Vector3, world: Matrix4) -> BoundingSphere {
    let diff = Vector3 {
        x: (max.x - min.x) as i64,
        y: (max.y - min.y) as i64,
        z: (max.z - min.z) as i64,
    };
    let local = BoundingSphere {
        diam2: sdot(diff, diff) as i128,
        center2: Vector3 {
            x: (min.x + max.x) as i64,
            y: (min.y + max.y) as i64,
            z: (min.z + max.z) as i64,
        },
        diam2_world: 0i128,
        center2_world: Vector3 { x: 0i64, y: 0i64, z: 0i64 },
    };
    sphere_update_spec(local, world)
}

/// Value and budget invariants the frustum test relies on.
pub open spec fn sphere_wf(s: BoundingSphere) -> bool {
    &&& vec_bounded(s.center2, 2 * MAX_ABS as int)
    &&& vec_bounded(s.center2_world, CENTER2_LIMIT as int)
    &&& 0 <= s.diam2 <= DIAM2_LOCAL_LIMIT
    &&& 0 <= s.diam2_world <= DIAM2_LIMIT
}

/// Twice the scaled signed-distance value of the world center against
/// plane `p`: equals `2 * |normal|` times the true signed distance.
pub open spec fn scenter_dist2(p: Plane, s: BoundingSphere) -> int {
    sdot(p.normal, s.center2_world) + 2 * p.d
}

/// The sphere lies entirely on the negative side of `p`, at least its
/// radius away: the exact encoding of `dist <= -radius_world` on
/// squares. `scenter_dist2^2 = 4 |n|^2 dist^2` and
/// `diam2_world * norm2 = 4 radius_world^2 |n|^2`. A degenerate
/// (zero-normal) plane has signed distance 0 everywhere, so
/// `dist <= -radius` rejects exactly the zero-radius spheres there.
pub open spec fn sphere_outside_plane(p: Plane, s: BoundingSphere) -> bool {
    let v = scenter_dist2(p, s);
    ||| p.norm2 > 0 && v <= 0 && v * v >= s.diam2_world * p.norm2
    ||| p.norm2 == 0 && s.diam2_world == 0
}

/// The sphere passes unless some plane rejects it.
pub open spec fn sphere_in_frustum(s: BoundingSphere, fp: FrustumPlanes) -> bool {
    !(sphere_outside_plane(fp.near, s) || sphere_outside_plane(fp.far, s) || sphere_outside_plane(
        fp.left, s) || sphere_outside_plane(fp.right, s) || sphere_outside_plane(fp.top, s)
        || sphere_outside_plane(fp.bottom, s))
}

/// The world center is inside or on every frustum plane.
pub open spec fn sphere_center_in_frustum(s: BoundingSphere, fp: FrustumPlanes) -> bool {
    &&& scenter_dist2(fp.near, s) >= 0
    &&& scenter_dist2(fp.far, s) >= 0
    &&& scenter_dist2(fp.left, s) >= 0
    &&& scenter_dist2(fp.right, s) >= 0
    &&& scenter_dist2(fp.top, s) >= 0
    &&& scenter_dist2(fp.bottom, s) >= 0
}

/// One exact plane rejection test (see `sphere_outside_plane`).
fn outside_plane(p: &Plane, s: &BoundingSphere) -> (r: bool)
    requires
        crate::plane::plane_bounded(*p),
        crate::plane::plane_normalized(*p),
        sphere_wf(*s),
    ensures
        r == sphere_outside_plane(*p, *s),
{
    proof {
        lemma_sdot_bound(p.normal, s.center2_world, crate::plane::PLANE_LIMIT as int,
            CENTER2_LIMIT as int);
        lemma_sdot_bound(p.normal, p.normal, crate::plane::PLANE_LIMIT as int,
            crate::plane::PLANE_LIMIT as int);
        let sv = scenter_dist2(*p, *s);
        lemma_mul_bound(sv, sv, SDIST_LIMIT as int, SDIST_LIMIT as int);
        lemma_mul_bound(s.diam2_world as int, p.norm2 as int, DIAM2_LIMIT as int,
            3 * (2 * MAX_ABS as int) * (2 * MAX_ABS as int));
        lemma_square_nonneg(p.normal.x as int);
        lemma_square_nonneg(p.normal.y as int);
        lemma_square_nonneg(p.normal.z as int);
    }
    if p.norm2 > 0 {
        let n = Vector3 { x: p.normal.x, y: p.normal.y, z: p.normal.z };
        let v: i128 = dot3_i128(&n, &s.center2_world) + 2 * (p.d as i128);
        v <= 0 && v * v >= s.diam2_world * p.norm2
    } else {
        s.diam2_world == 0
    }
}

impl Default for BoundingSphere {
    /// The default sphere: a unit-radius placeholder at the origin
    /// (squared diameter four).
    fn default() -> (r: BoundingSphere)
        ensures
            r == (BoundingSphere {
                diam2: 4i128,
                center2: Vector3 { x: 0i64, y: 0i64, z: 0i64 },
                diam2_world: 4i128,
                center2_world: Vector3 { x: 0i64, y: 0i64, z: 0i64 },
            }),
            sphere_wf(r),
    {
        BoundingSphere {
            diam2: 4,
            center2: Vector3 { x: 0, y: 0, z: 0 },
            diam2_world: 4,
            center2_world: Vector3 { x: 0, y: 0, z: 0 },
        }
    }
}

impl BoundingSphere {
    pub fn new(min: &Vector3, max: &Vector3, world: &Matrix4) -> (r: BoundingSphere)
        requires
            vec_bounded(*min, MAX_ABS as int),
            vec_bounded(*max, MAX_ABS as int),
            mat_bounded(*world, MAX_ABS as int),
        ensures
            r == sphere_reset_spec(*min, *max, *world),
            sphere_wf(r),
    {
        let mut result = BoundingSphere::default();
        result.reset(min, max, world);
        result
    }

    /// Diagonal-based local sphere of `[min, max]`, then carried to
    /// world space (see `sphere_reset_spec`).
    pub fn reset(&mut self, min: &Vector3, max: &Vector3, world: &Matrix4)
        requires
            vec_bounded(*min, MAX_ABS as int),
            vec_bounded(*max, MAX_ABS as int),
            mat_bounded(*world, MAX_ABS as int),
        ensures
            *final(self) == sphere_reset_spec(*min, *max, *world),
            sphere_wf(*final(self)),
    {
        let diff = Vector3 { x: max.x - min.x, y: max.y - min.y, z: max.z - min.z };
        proof {
            lemma_sdot_bound(diff, diff, 2 * MAX_ABS as int, 2 * MAX_ABS as int);
        }
        self.diam2 = dot3_i128(&diff, &diff);
        self.center2 = Vector3 { x: min.x + max.x, y: min.y + max.y, z: min.z + max.z };
        proof {
            lemma_square_nonneg(diff.x as int);
            lemma_square_nonneg(diff.y as int);
            lemma_square_nonneg(diff.z as int);
        }
        self.update(world);
    }

    /// Move the sphere to world space (see `sphere_update_spec`).
    pub fn update(&mut self, world: &Matrix4)
        requires
            mat_bounded(*world, MAX_ABS as int),
            vec_bounded(old(self).center2, 2 * MAX_ABS as int),
            0 <= old(self).diam2 <= DIAM2_LOCAL_LIMIT,
        ensures
            *final(self) == sphere_update_spec(*old(self), *world),
            sphere_wf(*final(self)),
    {
        if world.is_identity() {
            self.diam2_world = self.diam2;
            self.center2_world = Vector3 { x: self.center2.x, y: self.center2.y, z: self.center2.z };
        } else {
            let scale2 = max_scale2(world);
            proof {
                lemma_mul_bound(self.diam2 as int, scale2 as int, DIAM2_LOCAL_LIMIT as int,
                    SCALE2_LIMIT as int);
                lemma_mul_nonneg(self.diam2 as int, scale2 as int);
            }
            self.diam2_world = self.diam2 * scale2;
            self.center2_world = xform2(world, &self.center2);
        }
    }

    /// True when the world center lies inside or on every frustum plane.
    pub fn is_center_in_frustum(&self, frustum_planes: &FrustumPlanes) -> (r: bool)
        requires
            sphere_wf(*self),
            frustum_wf(*frustum_planes),
        ensures
            r == sphere_center_in_frustum(*self, *frustum_planes),
    {
        if center_dist2(&frustum_planes.near, self) < 0 {
            return false;
        }
        if center_dist2(&frustum_planes.far, self) < 0 {
            return false;
        }
        if center_dist2(&frustum_planes.left, self) < 0 {
            return false;
        }
        if center_dist2(&frustum_planes.right, self) < 0 {
            return false;
        }
        if center_dist2(&frustum_planes.top, self) < 0 {
            return false;
        }
        if center_dist2(&frustum_planes.bottom, self) < 0 {
            return false;
        }
        true
    }

    /// Exact sphere test: reject as soon as the sphere is at least its
    /// world radius beyond some plane (see `sphere_in_frustum`).
    pub fn is_in_frustum(&self, frustum_planes: &FrustumPlanes) -> (r: bool)
        requires
            sphere_wf(*self),
            frustum_wf(*frustum_planes),
        ensures
            r == sphere_in_frustum(*self, *frustum_planes),
    {
        if outside_plane(&frustum_planes.near, self) {
            return false;
        }
        if outside_plane(&frustum_planes.far, self) {
            return false;
        }
        if outside_plane(&frustum_planes.left, self) {
            return false;
        }
        if outside_plane(&frustum_planes.right, self) {
            return false;
        }
        if outside_plane(&frustum_planes.top, self) {
            return false;
        }
        if outside_plane(&frustum_planes.bottom, self) {
            return false;
        }
        true
    }
}

/// Twice the scaled signed distance of the world center.
fn center_dist2(p: &Plane, s: &BoundingSphere) -> (r: i128)
    requires
        crate::plane::plane_bounded(*p),
        sphere_wf(*s),
    ensures
        r == scenter_dist2(*p, *s),
{
    proof {
        lemma_sdot_bound(p.normal, s.center2_world, crate::plane::PLANE_LIMIT as int,
            CENTER2_LIMIT as int);
    }
    let n = Vector3 { x: p.normal.x, y: p.normal.y, z: p.normal.z };
    dot3_i128(&n, &s.center2_world) + 2 * (p.d as i128)
}

/// The largest squared column length of the linear part.
fn max_scale2(m: &Matrix4) -> (r: i128)
    requires
        mat_bounded(*m, MAX_ABS as int),
    ensures
        r == max_axis_scale2(*m),
        0 <= r <= SCALE2_LIMIT,
{
    let c0 = Vector3 { x: m.m00, y: m.m10, z: m.m20 };
    let c1 = Vector3 { x: m.m01, y: m.m11, z: m.m21 };
    let c2 = Vector3 { x: m.m02, y: m.m12, z: m.m22 };
    proof {
        lemma_sdot_bound(c0, c0, MAX_ABS as int, MAX_ABS as int);
        lemma_sdot_bound(c1, c1, MAX_ABS as int, MAX_ABS as int);
        lemma_sdot_bound(c2, c2, MAX_ABS as int, MAX_ABS as int);
        lemma_square_nonneg(m.m00 as int);
        lemma_square_nonneg(m.m10 as int);
        lemma_square_nonneg(m.m20 as int);
        lemma_square_nonneg(m.m01 as int);
        lemma_square_nonneg(m.m11 as int);
        lemma_square_nonneg(m.m21 as int);
        lemma_square_nonneg(m.m02 as int);
        lemma_square_nonneg(m.m12 as int);
        lemma_square_nonneg(m.m22 as int);
    }
    let a = dot3_i128(&c0, &c0);
    let b = dot3_i128(&c1, &c1);
    let c = dot3_i128(&c2, &c2);
    if a >= b && a >= c {
        a
    } else if b >= c {
        b
    } else {
        c
    }
}

/// Affine image of a doubled point (see `sxform2`).
fn xform2(m: &Matrix4, v: &Vector3) -> (r: Vector3)
    requires
        mat_bounded(*m, MAX_ABS as int),
        vec_bounded(*v, 2 * MAX_ABS as int),
    ensures
        r == sxform2(*m, *v),
        vec_bounded(r, CENTER2_LIMIT as int),
{
    proof {
        lemma_mul_bound(m.m00 as int, v.x as int, MAX_ABS as int, 2 * MAX_ABS as int);
        lemma_mul_bound(m.m01 as int, v.y as int, MAX_ABS as int, 2 * MAX_ABS as int);
        lemma_mul_bound(m.m02 as int, v.z as int, MAX_ABS as int, 2 * MAX_ABS as int);
        lemma_mul_bound(m.m10 as int, v.x as int, MAX_ABS as int, 2 * MAX_ABS as int);
        lemma_mul_bound(m.m11 as int, v.y as int, MAX_ABS as int, 2 * MAX_ABS as int);
        lemma_mul_bound(m.m12 as int, v.z as int, MAX_ABS as int, 2 * MAX_ABS as int);
        lemma_mul_bound(m.m20 as int, v.x as int, MAX_ABS as int, 2 * MAX_ABS as int);
        lemma_mul_bound(m.m21 as int, v.y as int, MAX_ABS as int, 2 * MAX_ABS as int);
        lemma_mul_bound(m.m22 as int, v.z as int, MAX_ABS as int, 2 * MAX_ABS as int);
    }
    Vector3 {
        x: m.m00 * v.x + m.m01 * v.y + m.m02 * v.z + 2 * m.m03,
        y: m.m10 * v.x + m.m11 * v.y + m.m12 * v.z + 2 * m.m13,
        z: m.m20 * v.x + m.m21 * v.y + m.m22 * v.z + 2 * m.m23,
    }
}

proof fn lemma_square_nonneg(a: int)
    by (nonlinear_arith)
    ensures
        a * a >= 0,
{
}

proof fn lemma_mul_nonneg(a: int, b: int)
    by (nonlinear_arith)
    requires
        a >= 0,
        b >= 0,
    ensures
        a * b >= 0,
{
}

/// A sphere strictly more than its world radius beyond some real
/// (nonzero-normal) plane is rejected, and a positive-radius sphere
/// strictly inside every real half-space by at least its radius passes;
/// degenerate planes have signed distance 0 everywhere and reject only
/// zero-radius spheres. (The one boundary left out is a zero-radius
/// sphere lying exactly on a plane, which the `dist <= -radius`
/// convention rejects.)
pub proof fn law_sphere_rejection(s: BoundingSphere, fp: FrustumPlanes)
    ensures
        (exists|p: Plane| frustum_plane(fp, p) && p.norm2 > 0 && scenter_dist2(p, s) < 0
            && scenter_dist2(p, s) * scenter_dist2(p, s) > s.diam2_world * p.norm2)
            ==> !sphere_in_frustum(s, fp),
        (s.diam2_world > 0 && forall|p: Plane| frustum_plane(fp, p) && p.norm2 > 0
            ==> scenter_dist2(p, s) > 0 && scenter_dist2(p, s) * scenter_dist2(p, s)
            >= s.diam2_world * p.norm2) ==> sphere_in_frustum(s, fp),
{
    assert(frustum_plane(fp, fp.near));
    assert(frustum_plane(fp, fp.far));
    assert(frustum_plane(fp, fp.left));
    assert(frustum_plane(fp, fp.right));
    assert(frustum_plane(fp, fp.top));
    assert(frustum_plane(fp, fp.bottom));
}

/// Membership of a plane in the six-plane set.
pub open spec fn frustum_plane(fp: FrustumPlanes, p: Plane) -> bool {
    p == fp.near || p == fp.far || p == fp.left || p == fp.right || p == fp.top || p == fp.bottom
}

} // verus!
