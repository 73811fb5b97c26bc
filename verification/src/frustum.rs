//! The six frustum planes of a combined view-projection matrix.

use vstd::prelude::*;

verus! {

use crate::MAX_ABS;
use crate::matrix::{Matrix4, mat_bounded};
use crate::plane::{Plane, normalize_spec, plane_normalized, plane_bounded};
use crate::vector::Vector3;

/// The six half-space planes of a view frustum. They are always derived
/// together from one matrix by `from_transform_matrix` and never mutated
/// individually.
#[derive(Debug, Clone, Copy, PartialEq, Eq, Structural)]
pub struct FrustumPlanes {
    pub near: Plane,
    pub far: Plane,
    pub left: Plane,
    pub right: Plane,
    pub top: Plane,
    pub bottom: Plane,
}

/// Plane extraction from a row-major matrix with rows `r0..r3`
/// (Gribb/Hartmann): each plane is a sum or difference of two rows,
/// then normalized.
pub open spec fn raw_near(m: Matrix4) -> Plane {
    Plane {
        normal: Vector3 {
            x: (m.m30 + m.m20) as i64,
            y: (m.m31 + m.m21) as i64,
            z: (m.m32 + m.m22) as i64,
        },
        d: (m.m33 + m.m23) as i64,
        norm2: 0i128,
    }
}

pub open spec fn raw_far(m: Matrix4) -> Plane {
    Plane {
        normal: Vector3 {
            x: (m.m30 - m.m20) as i64,
            y: (m.m31 - m.m21) as i64,
            z: (m.m32 - m.m22) as i64,
        },
        d: (m.m33 - m.m23) as i64,
        norm2: 0i128,
    }
}

pub open spec fn raw_left(m: Matrix4) -> Plane {
    Plane {
        normal: Vector3 {
            x: (m.m30 + m.m00) as i64,
            y: (m.m31 + m.m01) as i64,
            z: (m.m32 + m.m02) as i64,
        },
        d: (m.m33 + m.m03) as i64,
        norm2: 0i128,
    }
}

pub open spec fn raw_right(m: Matrix4) -> Plane {
    Plane {
        normal: Vector3 {
            x: (m.m30 - m.m00) as i64,
            y: (m.m31 - m.m01) as i64,
            z: (m.m32 - m.m02) as i64,
        },
        d: (m.m33 - m.m03) as i64,
        norm2: 0i128,
    }
}

pub open spec fn raw_top(m: Matrix4) -> Plane {
    Plane {
        normal: Vector3 {
            x: (m.m30 - m.m10) as i64,
            y: (m.m31 - m.m11) as i64,
            z: (m.m32 - m.m12) as i64,
        },
        d: (m.m33 - m.m13) as i64,
        norm2: 0i128,
    }
}

pub open spec fn raw_bottom(m: Matrix4) -> Plane {
    Plane {
        normal: Vector3 {
            x: (m.m30 + m.m10) as i64,
            y: (m.m31 + m.m11) as i64,
            z: (m.m32 + m.m12) as i64,
        },
        d: (m.m33 + m.m13) as i64,
        norm2: 0i128,
    }
}

/// Every plane carries a truthful `norm2` and coefficients small enough
/// for the exact frustum tests.
pub open spec fn frustum_wf(fp: FrustumPlanes) -> bool {
    &&& plane_normalized(fp.near) && plane_bounded(fp.near)
    &&& plane_normalized(fp.far) && plane_bounded(fp.far)
    &&& plane_normalized(fp.left) && plane_bounded(fp.left)
    &&& plane_normalized(fp.right) && plane_bounded(fp.right)
    &&& plane_normalized(fp.top) && plane_bounded(fp.top)
    &&& plane_normalized(fp.bottom) && plane_bounded(fp.bottom)
}

impl Default for FrustumPlanes {
    /// Six default planes; callers derive real ones with
    /// `from_transform_matrix`.
    fn default() -> (r: FrustumPlanes)
        ensures
            frustum_wf(r),
    {
        FrustumPlanes {
            near: Plane::default(),
            far: Plane::default(),
            left: Plane::default(),
            right: Plane::default(),
            top: Plane::default(),
            bottom: Plane::default(),
        }
    }
}

impl FrustumPlanes {
    /// Derive all six planes from a row-major combined view-projection
    /// matrix. This is the only supported construction path.
    pub fn from_transform_matrix(&mut self, transform: &Matrix4)
        requires
            mat_bounded(*transform, MAX_ABS as int),
        ensures
            final(self).near == normalize_spec(raw_near(*transform)),
            final(self).far == normalize_spec(raw_far(*transform)),
            final(self).left == normalize_spec(raw_left(*transform)),
            final(self).right == normalize_spec(raw_right(*transform)),
            final(self).top == normalize_spec(raw_top(*transform)),
            final(self).bottom == normalize_spec(raw_bottom(*transform)),
            frustum_wf(*final(self)),
    {
        self.transform_near_plane(transform);
        self.transform_far_plane(transform);
        self.transform_left_plane(transform);
        self.transform_right_plane(transform);
        self.transform_top_plane(transform);
        self.transform_bottom_plane(transform);
    }

    pub fn transform_near_plane(&mut self, transform: &Matrix4)
        requires
            mat_bounded(*transform, MAX_ABS as int),
        ensures
            final(self).near == normalize_spec(raw_near(*transform)),
            plane_normalized(final(self).near) && plane_bounded(final(self).near),
            final(self).far == old(self).far,
            final(self).left == old(self).left,
            final(self).right == old(self).right,
            final(self).top == old(self).top,
            final(self).bottom == old(self).bottom,
    {
        let m = transform;
        self.near.normal.x = m.m30 + m.m20;
        self.near.normal.y = m.m31 + m.m21;
        self.near.normal.z = m.m32 + m.m22;
        self.near.d = m.m33 + m.m23;
        self.near.normalize();
    }

    pub fn transform_far_plane(&mut self, transform: &Matrix4)
        requires
            mat_bounded(*transform, MAX_ABS as int),
        ensures
            final(self).far == normalize_spec(raw_far(*transform)),
            plane_normalized(final(self).far) && plane_bounded(final(self).far),
            final(self).near == old(self).near,
            final(self).left == old(self).left,
            final(self).right == old(self).right,
            final(self).top == old(self).top,
            final(self).bottom == old(self).bottom,
    {
        let m = transform;
        self.far.normal.x = m.m30 - m.m20;
        self.far.normal.y = m.m31 - m.m21;
        self.far.normal.z = m.m32 - m.m22;
        self.far.d = m.m33 - m.m23;
        self.far.normalize();
    }

    pub fn transform_left_plane(&mut self, transform: &Matrix4)
        requires
            mat_bounded(*transform, MAX_ABS as int),
        ensures
            final(self).left == normalize_spec(raw_left(*transform)),
            plane_normalized(final(self).left) && plane_bounded(final(self).left),
            final(self).near == old(self).near,
            final(self).far == old(self).far,
            final(self).right == old(self).right,
            final(self).top == old(self).top,
            final(self).bottom == old(self).bottom,
    {
        let m = transform;
        self.left.normal.x = m.m30 + m.m00;
        self.left.normal.y = m.m31 + m.m01;
        self.left.normal.z = m.m32 + m.m02;
        self.left.d = m.m33 + m.m03;
        self.left.normalize();
    }

    pub fn transform_right_plane(&mut self, transform: &Matrix4)
        requires
            mat_bounded(*transform, MAX_ABS as int),
        ensures
            final(self).right == normalize_spec(raw_right(*transform)),
            plane_normalized(final(self).right) && plane_bounded(final(self).right),
            final(self).near == old(self).near,
            final(self).far == old(self).far,
            final(self).left == old(self).left,
            final(self).top == old(self).top,
            final(self).bottom == old(self).bottom,
    {
        let m = transform;
        self.right.normal.x = m.m30 - m.m00;
        self.right.normal.y = m.m31 - m.m01;
        self.right.normal.z = m.m32 - m.m02;
        self.right.d = m.m33 - m.m03;
        self.right.normalize();
    }

    pub fn transform_top_plane(&mut self, transform: &Matrix4)
        requires
            mat_bounded(*transform, MAX_ABS as int),
        ensures
            final(self).top == normalize_spec(raw_top(*transform)),
            plane_normalized(final(self).top) && plane_bounded(final(self).top),
            final(self).near == old(self).near,
            final(self).far == old(self).far,
            final(self).left == old(self).left,
            final(self).right == old(self).right,
            final(self).bottom == old(self).bottom,
    {
        let m = transform;
        self.top.normal.x = m.m30 - m.m10;
        self.top.normal.y = m.m31 - m.m11;
        self.top.normal.z = m.m32 - m.m12;
        self.top.d = m.m33 - m.m13;
        self.top.normalize();
    }

    pub fn transform_bottom_plane(&mut self, transform: &Matrix4)
        requires
            mat_bounded(*transform, MAX_ABS as int),
        ensures
            final(self).bottom == normalize_spec(raw_bottom(*transform)),
            plane_normalized(final(self).bottom) && plane_bounded(final(self).bottom),
            final(self).near == old(self).near,
            final(self).far == old(self).far,
            final(self).left == old(self).left,
            final(self).right == old(self).right,
            final(self).top == old(self).top,
    {
        let m = transform;
        self.bottom.normal.x = m.m30 + m.m10;
        self.bottom.normal.y = m.m31 + m.m11;
        self.bottom.normal.z = m.m32 + m.m12;
        self.bottom.d = m.m33 + m.m13;
        self.bottom.normalize();
    }
}

} // verus!
