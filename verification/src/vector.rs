//! Three-component integer vectors and componentwise min/max.

use vstd::prelude::*;

verus! {

use crate::{DOT_LIMIT, MAX_ABS};

/// A 3-component vector with exact integer coordinates.
#[derive(Debug, Clone, Copy, PartialEq, Eq, Structural)]
pub struct Vector3 {
    pub x: i64,
    pub y: i64,
    pub z: i64,
}

/// Dot product, stated over unbounded integers.
pub open spec fn sdot(a: Vector3, b: Vector3) -> int {
    a.x * b.x + a.y * b.y + a.z * b.z
}

/// Cross product of two vectors, componentwise over unbounded integers.
pub open spec fn scross_x(a: Vector3, b: Vector3) -> int {
    a.y * b.z - a.z * b.y
}

pub open spec fn scross_y(a: Vector3, b: Vector3) -> int {
    a.z * b.x - a.x * b.z
}

pub open spec fn scross_z(a: Vector3, b: Vector3) -> int {
    a.x * b.y - a.y * b.x
}

/// Every component has magnitude at most `b`.
pub open spec fn vec_bounded(v: Vector3, b: int) -> bool {
    -b <= v.x <= b && -b <= v.y <= b && -b <= v.z <= b
}

/// Magnitude bound for a dot product of vectors bounded by `ba` and `bb`.
pub proof fn lemma_mul_bound(a: int, b: int, ba: int, bb: int)
    by (nonlinear_arith)
    requires
        -ba <= a <= ba,
        -bb <= b <= bb,
        0 <= ba,
        0 <= bb,
    ensures
        -(ba * bb) <= a * b <= ba * bb,
{
}

/// A dot product of bounded vectors is bounded by three times the product
/// of the bounds.
pub proof fn lemma_sdot_bound(a: Vector3, b: Vector3, ba: int, bb: int)
    requires
        vec_bounded(a, ba),
        vec_bounded(b, bb),
        0 <= ba,
        0 <= bb,
    ensures
        -(3 * (ba * bb)) <= sdot(a, b) <= 3 * (ba * bb),
{
    lemma_mul_bound(a.x as int, b.x as int, ba, bb);
    lemma_mul_bound(a.y as int, b.y as int, ba, bb);
    lemma_mul_bound(a.z as int, b.z as int, ba, bb);
}

impl Vector3 {
    pub fn new(x: i64, y: i64, z: i64) -> (r: Vector3)
        ensures
            r == (Vector3 { x, y, z }),
    {
        Vector3 { x, y, z }
    }

    pub fn zeros() -> (r: Vector3)
        ensures
            r == (Vector3 { x: 0i64, y: 0i64, z: 0i64 }),
    {
        Vector3 { x: 0, y: 0, z: 0 }
    }

    pub fn copy_from(&mut self, other: &Vector3)
        ensures
            *final(self) == *other,
    {
        self.x = other.x;
        self.y = other.y;
        self.z = other.z;
    }

    /// Componentwise sum written to `result`.
    pub fn add_to(&self, rhs: &Vector3, result: &mut Vector3)
        requires
            vec_bounded(*self, MAX_ABS as int),
            vec_bounded(*rhs, MAX_ABS as int),
        ensures
            final(result).x == self.x + rhs.x,
            final(result).y == self.y + rhs.y,
            final(result).z == self.z + rhs.z,
    {
        result.x = self.x + rhs.x;
        result.y = self.y + rhs.y;
        result.z = self.z + rhs.z;
    }

    /// Componentwise difference written to `result`.
    pub fn sub_to(&self, rhs: &Vector3, result: &mut Vector3)
        requires
            vec_bounded(*self, MAX_ABS as int),
            vec_bounded(*rhs, MAX_ABS as int),
        ensures
            final(result).x == self.x - rhs.x,
            final(result).y == self.y - rhs.y,
            final(result).z == self.z - rhs.z,
    {
        result.x = self.x - rhs.x;
        result.y = self.y - rhs.y;
        result.z = self.z - rhs.z;
    }
}

/// Exact dot product in 128-bit arithmetic.
pub fn dot3_i128(a: &Vector3, b: &Vector3) -> (r: i128)
    requires
        vec_bounded(*a, DOT_LIMIT as int),
        vec_bounded(*b, DOT_LIMIT as int),
    ensures
        r == sdot(*a, *b),
{
    proof {
        lemma_mul_bound(a.x as int, b.x as int, DOT_LIMIT as int, DOT_LIMIT as int);
        lemma_mul_bound(a.y as int, b.y as int, DOT_LIMIT as int, DOT_LIMIT as int);
        lemma_mul_bound(a.z as int, b.z as int, DOT_LIMIT as int, DOT_LIMIT as int);
    }
    (a.x as i128) * (b.x as i128) + (a.y as i128) * (b.y as i128) + (a.z as i128) * (b.z as i128)
}

/// Componentwise minimum and maximum, as the culling envelope code uses
/// them.
pub trait TMinimizeMaximize {
    /// Componentwise minimum of `self` and `rhs`, written to `result`.
    fn minimize(&self, rhs: &Self, result: &mut Self);

    /// Componentwise minimum of `self` and `rhs`, written back to `self`.
    fn minimize_mut(&mut self, rhs: &Self);

    /// Componentwise maximum of `self` and `rhs`, written to `result`.
    fn maximize(&self, rhs: &Self, result: &mut Self);

    /// Componentwise maximum of `self` and `rhs`, written back to `self`.
    fn maximize_mut(&mut self, rhs: &Self);
}

/// Componentwise minimum, stated over unbounded integers.
pub open spec fn smin(a: int, b: int) -> int {
    if a <= b {
        a
    } else {
        b
    }
}

/// Componentwise maximum, stated over unbounded integers.
pub open spec fn smax(a: int, b: int) -> int {
    if a >= b {
        a
    } else {
        b
    }
}

pub open spec fn vec_min(a: Vector3, b: Vector3) -> Vector3 {
    Vector3 {
        x: smin(a.x as int, b.x as int) as i64,
        y: smin(a.y as int, b.y as int) as i64,
        z: smin(a.z as int, b.z as int) as i64,
    }
}

pub open spec fn vec_max(a: Vector3, b: Vector3) -> Vector3 {
    Vector3 {
        x: smax(a.x as int, b.x as int) as i64,
        y: smax(a.y as int, b.y as int) as i64,
        z: smax(a.z as int, b.z as int) as i64,
    }
}

impl TMinimizeMaximize for Vector3 {
    fn minimize(&self, rhs: &Self, result: &mut Self)
        ensures
            *final(result) == vec_min(*self, *rhs),
    {
        result.x = if self.x <= rhs.x {
            self.x
        } else {
            rhs.x
        };
        result.y = if self.y <= rhs.y {
            self.y
        } else {
            rhs.y
        };
        result.z = if self.z <= rhs.z {
            self.z
        } else {
            rhs.z
        };
    }

    fn minimize_mut(&mut self, rhs: &Self)
        ensures
            *final(self) == vec_min(*old(self), *rhs),
    {
        if rhs.x < self.x {
            self.x = rhs.x;
        }
        if rhs.y < self.y {
            self.y = rhs.y;
        }
        if rhs.z < self.z {
            self.z = rhs.z;
        }
    }

    fn maximize(&self, rhs: &Self, result: &mut Self)
        ensures
            *final(result) == vec_max(*self, *rhs),
    {
        result.x = if self.x >= rhs.x {
            self.x
        } else {
            rhs.x
        };
        result.y = if self.y >= rhs.y {
            self.y
        } else {
            rhs.y
        };
        result.z = if self.z >= rhs.z {
            self.z
        } else {
            rhs.z
        };
    }

    fn maximize_mut(&mut self, rhs: &Self)
        ensures
            *final(self) == vec_max(*old(self), *rhs),
    {
        if rhs.x > self.x {
            self.x = rhs.x;
        }
        if rhs.y > self.y {
            self.y = rhs.y;
        }
        if rhs.z > self.z {
            self.z = rhs.z;
        }
    }
}

} // verus!
