//! Row-major 4x4 integer matrices: point transforms, products, and the
//! exact determinant/adjugate data the frustum-polyhedron builder needs.

use vstd::prelude::*;

verus! {

use crate::MAX_ABS;
use crate::vector::{Vector3, vec_bounded, lemma_mul_bound};

/// A row-major 4x4 matrix with exact integer entries. `mRC` is the entry
/// in row `R`, column `C`; a point transforms as `M * (v, 1)` with the
/// vector on the right.
#[derive(Debug, Clone, Copy, PartialEq, Eq, Structural)]
pub struct Matrix4 {
    pub m00: i64, pub m01: i64, pub m02: i64, pub m03: i64,
    pub m10: i64, pub m11: i64, pub m12: i64, pub m13: i64,
    pub m20: i64, pub m21: i64, pub m22: i64, pub m23: i64,
    pub m30: i64, pub m31: i64, pub m32: i64, pub m33: i64,
}

pub open spec fn identity_spec() -> Matrix4 {
    Matrix4 {
        m00: 1i64, m01: 0i64, m02: 0i64, m03: 0i64,
        m10: 0i64, m11: 1i64, m12: 0i64, m13: 0i64,
        m20: 0i64, m21: 0i64, m22: 1i64, m23: 0i64,
        m30: 0i64, m31: 0i64, m32: 0i64, m33: 1i64,
    }
}

/// Every entry has magnitude at most `b`.
pub open spec fn mat_bounded(m: Matrix4, b: int) -> bool {
    &&& -b <= m.m00 <= b && -b <= m.m01 <= b && -b <= m.m02 <= b && -b <= m.m03 <= b
    &&& -b <= m.m10 <= b && -b <= m.m11 <= b && -b <= m.m12 <= b && -b <= m.m13 <= b
    &&& -b <= m.m20 <= b && -b <= m.m21 <= b && -b <= m.m22 <= b && -b <= m.m23 <= b
    &&& -b <= m.m30 <= b && -b <= m.m31 <= b && -b <= m.m32 <= b && -b <= m.m33 <= b
}

/// The transform treats the matrix as an affine map: the result is the
/// first three components of `M * (v, 1)`; the last row is not read.
pub open spec fn sxform_x(m: Matrix4, v: Vector3) -> int {
    m.m00 * v.x + m.m01 * v.y + m.m02 * v.z + m.m03
}

pub open spec fn sxform_y(m: Matrix4, v: Vector3) -> int {
    m.m10 * v.x + m.m11 * v.y + m.m12 * v.z + m.m13
}

pub open spec fn sxform_z(m: Matrix4, v: Vector3) -> int {
    m.m20 * v.x + m.m21 * v.y + m.m22 * v.z + m.m23
}

pub open spec fn sxform(m: Matrix4, v: Vector3) -> Vector3 {
    Vector3 {
        x: sxform_x(m, v) as i64,
        y: sxform_y(m, v) as i64,
        z: sxform_z(m, v) as i64,
    }
}

/// Bound on a transformed point: each component is a 3-term dot product
/// of entries bounded by `bm` with coordinates bounded by `bv`, plus a
/// translation entry.
pub proof fn lemma_xform_bound(m: Matrix4, v: Vector3, bm: int, bv: int)
    requires
        mat_bounded(m, bm),
        vec_bounded(v, bv),
        0 <= bm,
        0 <= bv,
    ensures
        -(3 * (bm * bv) + bm) <= sxform_x(m, v) <= 3 * (bm * bv) + bm,
        -(3 * (bm * bv) + bm) <= sxform_y(m, v) <= 3 * (bm * bv) + bm,
        -(3 * (bm * bv) + bm) <= sxform_z(m, v) <= 3 * (bm * bv) + bm,
{
    lemma_mul_bound(m.m00 as int, v.x as int, bm, bv);
    lemma_mul_bound(m.m01 as int, v.y as int, bm, bv);
    lemma_mul_bound(m.m02 as int, v.z as int, bm, bv);
    lemma_mul_bound(m.m10 as int, v.x as int, bm, bv);
    lemma_mul_bound(m.m11 as int, v.y as int, bm, bv);
    lemma_mul_bound(m.m12 as int, v.z as int, bm, bv);
    lemma_mul_bound(m.m20 as int, v.x as int, bm, bv);
    lemma_mul_bound(m.m21 as int, v.y as int, bm, bv);
    lemma_mul_bound(m.m22 as int, v.z as int, bm, bv);
}

impl Matrix4 {
    #[allow(clippy::too_many_arguments)]
    pub fn new(
        m00: i64, m01: i64, m02: i64, m03: i64,
        m10: i64, m11: i64, m12: i64, m13: i64,
        m20: i64, m21: i64, m22: i64, m23: i64,
        m30: i64, m31: i64, m32: i64, m33: i64,
    ) -> (r: Matrix4)
        ensures
            r == (Matrix4 {
                m00, m01, m02, m03,
                m10, m11, m12, m13,
                m20, m21, m22, m23,
                m30, m31, m32, m33,
            }),
    {
        Matrix4 {
            m00, m01, m02, m03,
            m10, m11, m12, m13,
            m20, m21, m22, m23,
            m30, m31, m32, m33,
        }
    }

    pub fn identity() -> (r: Matrix4)
        ensures
            r == identity_spec(),
    {
        Matrix4 {
            m00: 1, m01: 0, m02: 0, m03: 0,
            m10: 0, m11: 1, m12: 0, m13: 0,
            m20: 0, m21: 0, m22: 1, m23: 0,
            m30: 0, m31: 0, m32: 0, m33: 1,
        }
    }

    /// Exact identity test. Integer matrices carry no rounding error, so
    /// no tolerance band is needed: a matrix either is the identity or
    /// it is not.
    pub fn is_identity(&self) -> (r: bool)
        ensures
            r == (*self == identity_spec()),
    {
        self.m00 == 1 && self.m01 == 0 && self.m02 == 0 && self.m03 == 0
            && self.m10 == 0 && self.m11 == 1 && self.m12 == 0 && self.m13 == 0
            && self.m20 == 0 && self.m21 == 0 && self.m22 == 1 && self.m23 == 0
            && self.m30 == 0 && self.m31 == 0 && self.m32 == 0 && self.m33 == 1
    }

    /// Affine point transform: the first three components of `M * (v, 1)`.
    pub fn transform_point(&self, v: &Vector3) -> (r: Vector3)
        requires
            mat_bounded(*self, MAX_ABS as int),
            vec_bounded(*v, MAX_ABS as int),
        ensures
            r == sxform(*self, *v),
            vec_bounded(r, 3 * (MAX_ABS as int) * (MAX_ABS as int) + MAX_ABS as int),
    {
        proof {
            lemma_xform_bound(*self, *v, MAX_ABS as int, MAX_ABS as int);
            lemma_mul_bound(self.m00 as int, v.x as int, MAX_ABS as int, MAX_ABS as int);
            lemma_mul_bound(self.m01 as int, v.y as int, MAX_ABS as int, MAX_ABS as int);
            lemma_mul_bound(self.m02 as int, v.z as int, MAX_ABS as int, MAX_ABS as int);
            lemma_mul_bound(self.m10 as int, v.x as int, MAX_ABS as int, MAX_ABS as int);
            lemma_mul_bound(self.m11 as int, v.y as int, MAX_ABS as int, MAX_ABS as int);
            lemma_mul_bound(self.m12 as int, v.z as int, MAX_ABS as int, MAX_ABS as int);
            lemma_mul_bound(self.m20 as int, v.x as int, MAX_ABS as int, MAX_ABS as int);
            lemma_mul_bound(self.m21 as int, v.y as int, MAX_ABS as int, MAX_ABS as int);
            lemma_mul_bound(self.m22 as int, v.z as int, MAX_ABS as int, MAX_ABS as int);
        }
        Vector3 {
            x: self.m00 * v.x + self.m01 * v.y + self.m02 * v.z + self.m03,
            y: self.m10 * v.x + self.m11 * v.y + self.m12 * v.z + self.m13,
            z: self.m20 * v.x + self.m21 * v.y + self.m22 * v.z + self.m23,
        }
    }
}

/// One entry of a matrix product: a 4-term dot product of bounded entries.
fn mul_entry(a0: i64, a1: i64, a2: i64, a3: i64, b0: i64, b1: i64, b2: i64, b3: i64) -> (r: i64)
    requires
        -MAX_ABS <= a0 <= MAX_ABS, -MAX_ABS <= a1 <= MAX_ABS,
        -MAX_ABS <= a2 <= MAX_ABS, -MAX_ABS <= a3 <= MAX_ABS,
        -MAX_ABS <= b0 <= MAX_ABS, -MAX_ABS <= b1 <= MAX_ABS,
        -MAX_ABS <= b2 <= MAX_ABS, -MAX_ABS <= b3 <= MAX_ABS,
    ensures
        r == a0 * b0 + a1 * b1 + a2 * b2 + a3 * b3,
{
    proof {
        lemma_mul_bound(a0 as int, b0 as int, MAX_ABS as int, MAX_ABS as int);
        lemma_mul_bound(a1 as int, b1 as int, MAX_ABS as int, MAX_ABS as int);
        lemma_mul_bound(a2 as int, b2 as int, MAX_ABS as int, MAX_ABS as int);
        lemma_mul_bound(a3 as int, b3 as int, MAX_ABS as int, MAX_ABS as int);
    }
    a0 * b0 + a1 * b1 + a2 * b2 + a3 * b3
}

/// One entry of the product `a * b`, stated over unbounded integers.
pub open spec fn smul_entry(m: Matrix4, n: Matrix4, r: int, c: int) -> int {
    srow(m, r, 0) * scol(n, 0, c) + srow(m, r, 1) * scol(n, 1, c) + srow(m, r, 2) * scol(n, 2, c)
        + srow(m, r, 3) * scol(n, 3, c)
}

/// Entry lookup by row and column, for stating product formulas.
pub open spec fn srow(m: Matrix4, r: int, c: int) -> int {
    if r == 0 {
        if c == 0 { m.m00 as int } else if c == 1 { m.m01 as int }
        else if c == 2 { m.m02 as int } else { m.m03 as int }
    } else if r == 1 {
        if c == 0 { m.m10 as int } else if c == 1 { m.m11 as int }
        else if c == 2 { m.m12 as int } else { m.m13 as int }
    } else if r == 2 {
        if c == 0 { m.m20 as int } else if c == 1 { m.m21 as int }
        else if c == 2 { m.m22 as int } else { m.m23 as int }
    } else {
        if c == 0 { m.m30 as int } else if c == 1 { m.m31 as int }
        else if c == 2 { m.m32 as int } else { m.m33 as int }
    }
}

pub open spec fn scol(m: Matrix4, r: int, c: int) -> int {
    srow(m, r, c)
}

/// The matrix product `a * b`, one exact entry at a time.
pub open spec fn smat_mul(a: Matrix4, b: Matrix4) -> Matrix4 {
    Matrix4 {
        m00: smul_entry(a, b, 0, 0) as i64, m01: smul_entry(a, b, 0, 1) as i64,
        m02: smul_entry(a, b, 0, 2) as i64, m03: smul_entry(a, b, 0, 3) as i64,
        m10: smul_entry(a, b, 1, 0) as i64, m11: smul_entry(a, b, 1, 1) as i64,
        m12: smul_entry(a, b, 1, 2) as i64, m13: smul_entry(a, b, 1, 3) as i64,
        m20: smul_entry(a, b, 2, 0) as i64, m21: smul_entry(a, b, 2, 1) as i64,
        m22: smul_entry(a, b, 2, 2) as i64, m23: smul_entry(a, b, 2, 3) as i64,
        m30: smul_entry(a, b, 3, 0) as i64, m31: smul_entry(a, b, 3, 1) as i64,
        m32: smul_entry(a, b, 3, 2) as i64, m33: smul_entry(a, b, 3, 3) as i64,
    }
}

/// Matrix product `y = a * b`, exact in every entry.
pub fn mul_to(a: &Matrix4, b: &Matrix4, y: &mut Matrix4)
    requires
        mat_bounded(*a, MAX_ABS as int),
        mat_bounded(*b, MAX_ABS as int),
    ensures
        *final(y) == smat_mul(*a, *b),
{
    y.m00 = mul_entry(a.m00, a.m01, a.m02, a.m03, b.m00, b.m10, b.m20, b.m30);
    y.m01 = mul_entry(a.m00, a.m01, a.m02, a.m03, b.m01, b.m11, b.m21, b.m31);
    y.m02 = mul_entry(a.m00, a.m01, a.m02, a.m03, b.m02, b.m12, b.m22, b.m32);
    y.m03 = mul_entry(a.m00, a.m01, a.m02, a.m03, b.m03, b.m13, b.m23, b.m33);
    y.m10 = mul_entry(a.m10, a.m11, a.m12, a.m13, b.m00, b.m10, b.m20, b.m30);
    y.m11 = mul_entry(a.m10, a.m11, a.m12, a.m13, b.m01, b.m11, b.m21, b.m31);
    y.m12 = mul_entry(a.m10, a.m11, a.m12, a.m13, b.m02, b.m12, b.m22, b.m32);
    y.m13 = mul_entry(a.m10, a.m11, a.m12, a.m13, b.m03, b.m13, b.m23, b.m33);
    y.m20 = mul_entry(a.m20, a.m21, a.m22, a.m23, b.m00, b.m10, b.m20, b.m30);
    y.m21 = mul_entry(a.m20, a.m21, a.m22, a.m23, b.m01, b.m11, b.m21, b.m31);
    y.m22 = mul_entry(a.m20, a.m21, a.m22, a.m23, b.m02, b.m12, b.m22, b.m32);
    y.m23 = mul_entry(a.m20, a.m21, a.m22, a.m23, b.m03, b.m13, b.m23, b.m33);
    y.m30 = mul_entry(a.m30, a.m31, a.m32, a.m33, b.m00, b.m10, b.m20, b.m30);
    y.m31 = mul_entry(a.m30, a.m31, a.m32, a.m33, b.m01, b.m11, b.m21, b.m31);
    y.m32 = mul_entry(a.m30, a.m31, a.m32, a.m33, b.m02, b.m12, b.m22, b.m32);
    y.m33 = mul_entry(a.m30, a.m31, a.m32, a.m33, b.m03, b.m13, b.m23, b.m33);
}

} // verus!
