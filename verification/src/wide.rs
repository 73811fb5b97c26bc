//! Exact 256-bit signed arithmetic, in sign-magnitude form with two
//! 128-bit magnitude limbs. The separating-axis projections of the
//! frustum polyhedron multiply its rational corner numerators by
//! hull-derived axes and by the determinant denominator, which exceeds
//! 128 bits; these values carry those products and comparisons exactly.

use vstd::prelude::*;

verus! {

use vstd::arithmetic::div_mod::{lemma_fundamental_div_mod, lemma_mod_bound};
use crate::vector::lemma_mul_bound;

/// The limb split point `2^64` of the unsigned multiplier.
pub const LIMB: u128 = 0x10000000000000000;

/// `2^128`, the weight of the upper magnitude limb.
pub open spec fn limb2() -> int {
    0x100000000000000000000000000000000int
}

/// A signed 256-bit value in sign-magnitude form: its value is
/// `hi * 2^128 + lo`, negated when `neg` is set.
#[derive(Debug, Clone, Copy, PartialEq, Eq, Structural)]
pub struct WideInt {
    pub neg: bool,
    pub hi: u128,
    pub lo: u128,
}

/// The magnitude of a wide value.
pub open spec fn wide_mag(w: WideInt) -> int {
    (w.hi as int) * limb2() + w.lo as int
}

/// The signed value a `WideInt` carries.
pub open spec fn wide_val(w: WideInt) -> int {
    if w.neg {
        -wide_mag(w)
    } else {
        wide_mag(w)
    }
}

/// A bound on the value bounds the upper limb.
pub proof fn lemma_wide_mag_bound(w: WideInt, b: int)
    requires
        -b <= wide_val(w) <= b,
        0 <= b,
    ensures
        wide_mag(w) <= b,
        (w.hi as int) * limb2() <= b,
{
}

/// A magnitude bounded below `2^254` leaves headroom in the upper limb.
proof fn lemma_hi_headroom(hi: int, lo: int, b: int)
    by (nonlinear_arith)
    requires
        hi * 0x100000000000000000000000000000000int + lo <= b,
        0 <= hi,
        0 <= lo,
        b < 0x4000000000000000000000000000000000000000000000000000000000000000int,
    ensures
        hi < 0x40000000000000000000000000000000,
{
}

/// A value bound below `2^254` leaves headroom in the upper limb for
/// one more addition.
pub proof fn lemma_wide_hi_headroom(w: WideInt, b: int)
    requires
        -b <= wide_val(w) <= b,
        0 <= b,
        b < 0x4000000000000000000000000000000000000000000000000000000000000000int,
    ensures
        w.hi < 0x40000000000000000000000000000000,
{
    lemma_hi_headroom(w.hi as int, w.lo as int, b);
}

/// The exact product of two half-range unsigned values, split as
/// `r.0 * 2^128 + r.1` (school multiplication on 64-bit limbs).
fn umul_128(a: u128, b: u128) -> (r: (u128, u128))
    requires
        a < 0x80000000000000000000000000000000,
        b < 0x80000000000000000000000000000000,
    ensures
        (r.0 as int) * limb2() + r.1 as int == a as int * b as int,
{
    let a1 = a / LIMB;
    let a0 = a % LIMB;
    let b1 = b / LIMB;
    let b0 = b % LIMB;
    proof {
        lemma_fundamental_div_mod(a as int, LIMB as int);
        lemma_mod_bound(a as int, LIMB as int);
        lemma_fundamental_div_mod(b as int, LIMB as int);
        lemma_mod_bound(b as int, LIMB as int);
        lemma_mul_bound(a0 as int, b0 as int, LIMB as int - 1, LIMB as int - 1);
        lemma_mul_bound(a0 as int, b1 as int, LIMB as int - 1, LIMB as int - 1);
        lemma_mul_bound(a1 as int, b0 as int, LIMB as int - 1, LIMB as int - 1);
        lemma_mul_bound(a1 as int, b1 as int, LIMB as int - 1, LIMB as int - 1);
    }
    let p00 = a0 * b0;
    let p01 = a0 * b1;
    let p10 = a1 * b0;
    let p11 = a1 * b1;
    proof {
        lemma_umul_expand(a as int, b as int, a1 as int, a0 as int, b1 as int, b0 as int);
        lemma_fundamental_div_mod(p01 as int, LIMB as int);
        lemma_mod_bound(p01 as int, LIMB as int);
        lemma_fundamental_div_mod(p10 as int, LIMB as int);
        lemma_mod_bound(p10 as int, LIMB as int);
    }
    let mid_lo = p01 % LIMB + p10 % LIMB;
    let mid_hi = p01 / LIMB + p10 / LIMB;
    proof {
        lemma_fundamental_div_mod(mid_lo as int, LIMB as int);
        lemma_mod_bound(mid_lo as int, LIMB as int);
    }
    let ml1 = mid_lo / LIMB;
    let ml0 = mid_lo % LIMB;
    let low_add = ml0 * LIMB;
    let (r1, c) = if p00 > u128::MAX - low_add {
        (p00 - (u128::MAX - low_add) - 1, 1u128)
    } else {
        (p00 + low_add, 0u128)
    };
    let r0 = p11 + mid_hi + ml1 + c;
    proof {
        // a * b == p11 * 2^128 + (p01 + p10) * 2^64 + p00
        //       == (p11 + mid_hi + ml1) * 2^128 + ml0 * 2^64 + p00
        //       == r0 * 2^128 + r1.
        assert((p01 + p10) * (LIMB as int) == (mid_hi as int) * limb2() + (ml1 as int) * limb2()
            + (ml0 as int) * (LIMB as int)) by (nonlinear_arith)
            requires
                p01 + p10 == mid_hi as int * (LIMB as int) + mid_lo,
                mid_lo == ml1 as int * (LIMB as int) + ml0,
                LIMB as int * (LIMB as int) == limb2(),
        {
        }
    }
    (r0, r1)
}

/// The 64-bit limb expansion of a 128-bit product.
proof fn lemma_umul_expand(a: int, b: int, a1: int, a0: int, b1: int, b0: int)
    by (nonlinear_arith)
    requires
        a == a1 * 0x10000000000000000 + a0,
        b == b1 * 0x10000000000000000 + b0,
    ensures
        a * b == (a1 * b1) * 0x100000000000000000000000000000000int + (a0 * b1 + a1 * b0)
            * 0x10000000000000000 + a0 * b0,
{
}

/// Products split by sign and magnitude.
proof fn lemma_sign_mag(a: int, b: int, ma: int, mb: int)
    by (nonlinear_arith)
    requires
        (a >= 0 ==> ma == a) && (a < 0 ==> ma == -a),
        (b >= 0 ==> mb == b) && (b < 0 ==> mb == -b),
    ensures
        a >= 0 && b >= 0 ==> a * b == ma * mb,
        a >= 0 && b < 0 ==> a * b == -(ma * mb),
        a < 0 && b >= 0 ==> a * b == -(ma * mb),
        a < 0 && b < 0 ==> a * b == ma * mb,
{
}

/// The exact product of two 128-bit signed values as a wide value.
pub fn wide_mul(a: i128, b: i128) -> (r: WideInt)
    requires
        -0x7fffffffffffffffffffffffffffffff <= a <= 0x7fffffffffffffffffffffffffffffff,
        -0x7fffffffffffffffffffffffffffffff <= b <= 0x7fffffffffffffffffffffffffffffff,
    ensures
        wide_val(r) == a as int * b as int,
{
    let ma: u128 = if a < 0 {
        (-a) as u128
    } else {
        a as u128
    };
    let mb: u128 = if b < 0 {
        (-b) as u128
    } else {
        b as u128
    };
    proof {
        lemma_sign_mag(a as int, b as int, ma as int, mb as int);
    }
    let (hi, lo) = umul_128(ma, mb);
    WideInt { neg: (a < 0) != (b < 0), hi, lo }
}

/// The exact sum of two wide values with headroom in the upper limb.
pub fn wide_add(a: &WideInt, b: &WideInt) -> (r: WideInt)
    requires
        a.hi < 0x40000000000000000000000000000000,
        b.hi < 0x40000000000000000000000000000000,
    ensures
        wide_val(r) == wide_val(*a) + wide_val(*b),
{
    if a.neg == b.neg {
        let (lo, c) = if a.lo > u128::MAX - b.lo {
            (a.lo - (u128::MAX - b.lo) - 1, 1u128)
        } else {
            (a.lo + b.lo, 0u128)
        };
        WideInt { neg: a.neg, hi: a.hi + b.hi + c, lo }
    } else {
        if a.hi < b.hi || (a.hi == b.hi && a.lo < b.lo) {
            // |a| < |b|: the sum takes b's sign.
            let (lo, brw) = if b.lo >= a.lo {
                (b.lo - a.lo, 0u128)
            } else {
                (b.lo + (u128::MAX - a.lo) + 1, 1u128)
            };
            WideInt { neg: b.neg, hi: b.hi - a.hi - brw, lo }
        } else {
            // |a| >= |b|: the sum takes a's sign (zero when equal).
            let (lo, brw) = if a.lo >= b.lo {
                (a.lo - b.lo, 0u128)
            } else {
                (a.lo + (u128::MAX - b.lo) + 1, 1u128)
            };
            WideInt { neg: a.neg, hi: a.hi - b.hi - brw, lo }
        }
    }
}

/// Exact strict order of two wide values.
pub fn wide_lt(a: &WideInt, b: &WideInt) -> (r: bool)
    ensures
        r == (wide_val(*a) < wide_val(*b)),
{
    if a.neg && !b.neg {
        !(a.hi == 0 && a.lo == 0 && b.hi == 0 && b.lo == 0)
    } else if !a.neg && b.neg {
        false
    } else if !a.neg {
        a.hi < b.hi || (a.hi == b.hi && a.lo < b.lo)
    } else {
        b.hi < a.hi || (b.hi == a.hi && b.lo < a.lo)
    }
}

} // verus!
