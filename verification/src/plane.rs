//! Half-space planes with exact integer coefficients.
//!
//! A floating-point plane is normalized by dividing by `|normal|`, an
//! irrational number. Here normalization is deferred instead: the plane
//! keeps its integer coefficients and records `norm2`, the exact squared
//! length of the normal. `dot_coordinate` then returns `|normal|` times
//! the true signed distance, which has the same sign and the same zero
//! set, and consumers that need the radius comparison of a normalized
//! plane compare squares against `norm2`. For a nonzero normal every
//! culling decision is exactly the one the unit-normal plane would
//! make; a degenerate (zero-normal) plane has no unit form and degrades
//! to the zero plane, whose signed distance is 0 everywhere.

use vstd::prelude::*;

verus! {

use crate::{DOT_LIMIT, MAX_ABS};
use crate::vector::{Vector3, sdot, scross_x, scross_y, scross_z, vec_bounded, lemma_mul_bound,
    lemma_sdot_bound, dot3_i128};
use vstd::arithmetic::mul::lemma_mul_basics;

/// Coefficient bound for planes extracted from a bounded matrix: each
/// coefficient is a sum of two matrix entries.
pub const PLANE_LIMIT: i64 = 2 * MAX_ABS;

/// Bound on world-space points: what an affine transform with entries
/// bounded by `MAX_ABS` can produce from coordinates bounded by
/// `MAX_ABS`.
pub const WORLD_LIMIT: i64 = 3 * MAX_ABS * MAX_ABS + MAX_ABS;

#[derive(Debug, Clone, Copy, PartialEq, Eq, Structural)]
pub struct Plane {
    pub normal: Vector3,
    pub d: i64,
    /// Squared length of `normal`, recorded by `normalize`.
    pub norm2: i128,
}

/// The signed-distance value `normal . point + d`, exact over integers.
/// For a normalized plane this is `|normal|` times the true signed
/// distance of `point`.
pub open spec fn sdot_coord(p: Plane, pt: Vector3) -> int {
    sdot(p.normal, pt) + p.d
}

/// What `normalize` produces: a degenerate normal zeroes the plane so
/// that its signed distance is 0 everywhere; otherwise the coefficients
/// stay and the squared normal length is recorded.
pub open spec fn normalize_spec(p: Plane) -> Plane {
    if p.normal == (Vector3 { x: 0i64, y: 0i64, z: 0i64 }) {
        Plane { normal: p.normal, d: 0i64, norm2: 0i128 }
    } else {
        Plane { normal: p.normal, d: p.d, norm2: sdot(p.normal, p.normal) as i128 }
    }
}

/// A plane whose recorded `norm2` is truthful, as `normalize` leaves it.
pub open spec fn plane_normalized(p: Plane) -> bool {
    &&& p.norm2 == sdot(p.normal, p.normal)
    &&& (p.normal == (Vector3 { x: 0i64, y: 0i64, z: 0i64 }) ==> p.d == 0)
}

/// Coefficients small enough for the frustum tests' products.
pub open spec fn plane_bounded(p: Plane) -> bool {
    vec_bounded(p.normal, PLANE_LIMIT as int) && -PLANE_LIMIT <= p.d <= PLANE_LIMIT
}

impl Default for Plane {
    /// The default plane: the ground plane one unit up, with its
    /// squared normal length recorded.
    fn default() -> (r: Plane)
        ensures
            r == (Plane { normal: Vector3 { x: 0i64, y: 1i64, z: 0i64 }, d: 1i64, norm2: 1i128 }),
            plane_normalized(r),
            plane_bounded(r),
    {
        Plane { normal: Vector3 { x: 0, y: 1, z: 0 }, d: 1, norm2: 1 }
    }
}

impl Plane {
    /// The plane through `p1`, `p2`, `p3`: normal is the cross product of
    /// the two edges from `p1`, and `p1` lies on the plane.
    pub fn from_points(&mut self, p1: &Vector3, p2: &Vector3, p3: &Vector3)
        requires
            vec_bounded(*p1, MAX_ABS as int),
            vec_bounded(*p2, MAX_ABS as int),
            vec_bounded(*p3, MAX_ABS as int),
        ensures
            final(self).normal.x == scross_x(
                Vector3 { x: (p2.x - p1.x) as i64, y: (p2.y - p1.y) as i64, z: (p2.z - p1.z) as i64 },
                Vector3 { x: (p3.x - p1.x) as i64, y: (p3.y - p1.y) as i64, z: (p3.z - p1.z) as i64 },
            ),
            final(self).normal.y == scross_y(
                Vector3 { x: (p2.x - p1.x) as i64, y: (p2.y - p1.y) as i64, z: (p2.z - p1.z) as i64 },
                Vector3 { x: (p3.x - p1.x) as i64, y: (p3.y - p1.y) as i64, z: (p3.z - p1.z) as i64 },
            ),
            final(self).normal.z == scross_z(
                Vector3 { x: (p2.x - p1.x) as i64, y: (p2.y - p1.y) as i64, z: (p2.z - p1.z) as i64 },
                Vector3 { x: (p3.x - p1.x) as i64, y: (p3.y - p1.y) as i64, z: (p3.z - p1.z) as i64 },
            ),
            final(self).d == -sdot(final(self).normal, *p1),
            final(self).norm2 == old(self).norm2,
            sdot_coord(*final(self), *p1) == 0,
    {
        let e1 = Vector3 { x: p2.x - p1.x, y: p2.y - p1.y, z: p2.z - p1.z };
        let e2 = Vector3 { x: p3.x - p1.x, y: p3.y - p1.y, z: p3.z - p1.z };
        proof {
            lemma_mul_bound(e1.y as int, e2.z as int, 2 * MAX_ABS as int, 2 * MAX_ABS as int);
            lemma_mul_bound(e1.z as int, e2.y as int, 2 * MAX_ABS as int, 2 * MAX_ABS as int);
            lemma_mul_bound(e1.z as int, e2.x as int, 2 * MAX_ABS as int, 2 * MAX_ABS as int);
            lemma_mul_bound(e1.x as int, e2.z as int, 2 * MAX_ABS as int, 2 * MAX_ABS as int);
            lemma_mul_bound(e1.x as int, e2.y as int, 2 * MAX_ABS as int, 2 * MAX_ABS as int);
            lemma_mul_bound(e1.y as int, e2.x as int, 2 * MAX_ABS as int, 2 * MAX_ABS as int);
        }
        let nx: i64 = e1.y * e2.z - e1.z * e2.y;
        let ny: i64 = e1.z * e2.x - e1.x * e2.z;
        let nz: i64 = e1.x * e2.y - e1.y * e2.x;
        self.normal = Vector3 { x: nx, y: ny, z: nz };
        proof {
            lemma_sdot_bound(self.normal, *p1, 8 * (MAX_ABS as int) * (MAX_ABS as int),
                MAX_ABS as int);
        }
        let dd: i128 = dot3_i128(&self.normal, p1);
        self.d = -(dd as i64);
    }

    /// The plane through `origin` with the given normal.
    pub fn from_point_and_normal(&mut self, origin: &Vector3, normal: &Vector3)
        requires
            vec_bounded(*origin, MAX_ABS as int),
            vec_bounded(*normal, PLANE_LIMIT as int),
        ensures
            final(self).normal == *normal,
            final(self).d == -sdot(*normal, *origin),
            final(self).norm2 == old(self).norm2,
            sdot_coord(*final(self), *origin) == 0,
    {
        proof {
            lemma_sdot_bound(*normal, *origin, PLANE_LIMIT as int, MAX_ABS as int);
        }
        self.normal = Vector3 { x: normal.x, y: normal.y, z: normal.z };
        let dd: i128 = dot3_i128(normal, origin);
        self.d = -(dd as i64);
    }

    /// Deferred exact normalization: record the squared normal length; a
    /// zero normal degenerates to the zero plane, whose signed distance
    /// is 0 everywhere.
    pub fn normalize(&mut self)
        requires
            vec_bounded(old(self).normal, DOT_LIMIT as int),
        ensures
            *final(self) == normalize_spec(*old(self)),
            plane_normalized(*final(self)),
    {
        if self.normal.x == 0 && self.normal.y == 0 && self.normal.z == 0 {
            self.d = 0;
            self.norm2 = 0;
        } else {
            let n = Vector3 { x: self.normal.x, y: self.normal.y, z: self.normal.z };
            self.norm2 = dot3_i128(&n, &n);
        }
    }

    /// The exact value `normal . point + d`. For a normalized plane this
    /// is `|normal|` times the true signed distance of `point`, so its
    /// sign classifies `point` against the half-space exactly.
    pub fn dot_coordinate(&self, point: &Vector3) -> (r: i128)
        requires
            vec_bounded(self.normal, DOT_LIMIT as int),
            vec_bounded(*point, DOT_LIMIT as int),
        ensures
            r == sdot_coord(*self, *point),
    {
        proof {
            lemma_sdot_bound(self.normal, *point, DOT_LIMIT as int, DOT_LIMIT as int);
        }
        let n = Vector3 { x: self.normal.x, y: self.normal.y, z: self.normal.z };
        dot3_i128(&n, point) + (self.d as i128)
    }
}

/// Normalization never moves the plane: the signed-distance value of
/// every point keeps its sign and its zero set. A point on the plane
/// before `normalize` is still on it afterwards, and for a degenerate
/// (zero-normal) input the signed distance becomes 0 everywhere.
pub proof fn law_normalize_preserves_plane(p: Plane, pt: Vector3)
    requires
        vec_bounded(p.normal, DOT_LIMIT as int),
    ensures
        p.normal != (Vector3 { x: 0i64, y: 0i64, z: 0i64 }) ==> sdot_coord(normalize_spec(p), pt)
            == sdot_coord(p, pt),
        p.normal == (Vector3 { x: 0i64, y: 0i64, z: 0i64 }) ==> sdot_coord(normalize_spec(p), pt)
            == 0,
        normalize_spec(p).norm2 == sdot(normalize_spec(p).normal, normalize_spec(p).normal),
{
    lemma_mul_basics(pt.x as int);
    lemma_mul_basics(pt.y as int);
    lemma_mul_basics(pt.z as int);
    lemma_sdot_bound(p.normal, p.normal, DOT_LIMIT as int, DOT_LIMIT as int);
    if p.normal == (Vector3 { x: 0i64, y: 0i64, z: 0i64 }) {
        assert(sdot(p.normal, pt) == 0);
    }
}

} // verus!
