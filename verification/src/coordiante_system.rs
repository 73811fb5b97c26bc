//! Handedness of the scene coordinate system, and exact point and
//! normal transforms.

use vstd::prelude::*;

verus! {

use crate::MAX_ABS;
use crate::matrix::{Matrix4, mat_bounded, sxform, lemma_xform_bound};
use crate::vector::{Vector3, vec_bounded, lemma_mul_bound};

/// Image of a direction vector under the linear part of `m`: the
/// translation row is not applied.
pub open spec fn sxform_normal(m: Matrix4, v: Vector3) -> Vector3 {
    Vector3 {
        x: (m.m00 * v.x + m.m01 * v.y + m.m02 * v.z) as i64,
        y: (m.m10 * v.x + m.m11 * v.y + m.m12 * v.z) as i64,
        z: (m.m20 * v.x + m.m21 * v.y + m.m22 * v.z) as i64,
    }
}

#[derive(Debug, Clone, Copy, PartialEq, Eq, Structural)]
pub enum ECoordinateSytem3 {
    Left,
    Right,
}

/// A chosen 3D coordinate-system convention.
#[derive(Debug, Clone, Copy, PartialEq, Eq, Structural)]
pub struct CoordinateSytem3 {
    mode: ECoordinateSytem3,
}

impl Default for CoordinateSytem3 {
    /// The default convention is left-handed.
    fn default() -> (r: CoordinateSytem3)
        ensures
            r.mode() == ECoordinateSytem3::Left,
    {
        CoordinateSytem3::left()
    }
}

impl CoordinateSytem3 {
    pub fn left() -> (r: CoordinateSytem3)
        ensures
            r.mode() == ECoordinateSytem3::Left,
    {
        CoordinateSytem3 { mode: ECoordinateSytem3::Left }
    }

    pub fn right() -> (r: CoordinateSytem3)
        ensures
            r.mode() == ECoordinateSytem3::Right,
    {
        CoordinateSytem3 { mode: ECoordinateSytem3::Right }
    }

    pub closed spec fn spec_mode(&self) -> ECoordinateSytem3 {
        self.mode
    }

    #[verifier::when_used_as_spec(spec_mode)]
    pub fn mode(&self) -> (r: ECoordinateSytem3)
        ensures
            r == self.spec_mode(),
    {
        self.mode
    }

    /// Carry a point to world space: the affine image of `v0`,
    /// translation included.
    pub fn transform_coordinates(v0: &Vector3, transformation: &Matrix4, result: &mut Vector3)
        requires
            vec_bounded(*v0, MAX_ABS as int),
            mat_bounded(*transformation, MAX_ABS as int),
        ensures
            *final(result) == sxform(*transformation, *v0),
    {
        let r = transformation.transform_point(v0);
        result.x = r.x;
        result.y = r.y;
        result.z = r.z;
    }

    /// Carry a point given by components (see `transform_coordinates`).
    pub fn transform_coordinates_floats(x: i64, y: i64, z: i64, transformation: &Matrix4,
        result: &mut Vector3)
        requires
            -MAX_ABS <= x <= MAX_ABS,
            -MAX_ABS <= y <= MAX_ABS,
            -MAX_ABS <= z <= MAX_ABS,
            mat_bounded(*transformation, MAX_ABS as int),
        ensures
            *final(result) == sxform(*transformation, Vector3 { x, y, z }),
    {
        let v = Vector3 { x, y, z };
        CoordinateSytem3::transform_coordinates(&v, transformation, result);
    }

    /// Carry a direction to world space: the image under the linear
    /// part alone; translation does not move directions.
    pub fn transform_normal(v0: &Vector3, transformation: &Matrix4, result: &mut Vector3)
        requires
            vec_bounded(*v0, MAX_ABS as int),
            mat_bounded(*transformation, MAX_ABS as int),
        ensures
            *final(result) == sxform_normal(*transformation, *v0),
    {
        let m = transformation;
        proof {
            lemma_mul_bound(m.m00 as int, v0.x as int, MAX_ABS as int, MAX_ABS as int);
            lemma_mul_bound(m.m01 as int, v0.y as int, MAX_ABS as int, MAX_ABS as int);
            lemma_mul_bound(m.m02 as int, v0.z as int, MAX_ABS as int, MAX_ABS as int);
            lemma_mul_bound(m.m10 as int, v0.x as int, MAX_ABS as int, MAX_ABS as int);
            lemma_mul_bound(m.m11 as int, v0.y as int, MAX_ABS as int, MAX_ABS as int);
            lemma_mul_bound(m.m12 as int, v0.z as int, MAX_ABS as int, MAX_ABS as int);
            lemma_mul_bound(m.m20 as int, v0.x as int, MAX_ABS as int, MAX_ABS as int);
            lemma_mul_bound(m.m21 as int, v0.y as int, MAX_ABS as int, MAX_ABS as int);
            lemma_mul_bound(m.m22 as int, v0.z as int, MAX_ABS as int, MAX_ABS as int);
        }
        result.x = m.m00 * v0.x + m.m01 * v0.y + m.m02 * v0.z;
        result.y = m.m10 * v0.x + m.m11 * v0.y + m.m12 * v0.z;
        result.z = m.m20 * v0.x + m.m21 * v0.y + m.m22 * v0.z;
    }

    /// Carry a direction given by components (see `transform_normal`).
    pub fn transform_normal_floats(x: i64, y: i64, z: i64, transformation: &Matrix4,
        result: &mut Vector3)
        requires
            -MAX_ABS <= x <= MAX_ABS,
            -MAX_ABS <= y <= MAX_ABS,
            -MAX_ABS <= z <= MAX_ABS,
            mat_bounded(*transformation, MAX_ABS as int),
        ensures
            *final(result) == sxform_normal(*transformation, Vector3 { x, y, z }),
    {
        let v = Vector3 { x, y, z };
        CoordinateSytem3::transform_normal(&v, transformation, result);
    }
}

} // verus!
