//! Uniform buffer sizing against a device alignment.

use vstd::prelude::*;

verus! {

use vstd::arithmetic::div_mod::{lemma_fundamental_div_mod, lemma_mod_bound};

/// Round a used size up to the device's uniform-offset alignment. The
/// alignment is the device limit `min_uniform_buffer_offset_alignment`
/// and is a positive value; the result is the smallest multiple of it
/// that holds `used_size`.
pub fn calc_uniform_size(alignment: u64, used_size: u64) -> (r: u64)
    requires
        alignment > 0,
        used_size + alignment <= u64::MAX,
    ensures
        r == (if used_size as int % alignment as int == 0 {
            used_size as int
        } else {
            (used_size as int / alignment as int + 1) * alignment as int
        }),
        r % alignment == 0,
        r >= used_size,
        r < used_size + alignment,
{
    let limit = alignment;
    proof {
        lemma_fundamental_div_mod(used_size as int, limit as int);
        lemma_mod_bound(used_size as int, limit as int);
        let t0 = used_size as int / limit as int;
        assert(t0 * limit as int == limit as int * t0) by (nonlinear_arith);
        assert(limit as int * (t0 + 1) == limit as int * t0 + limit as int) by (nonlinear_arith);
    }
    let t = used_size / limit;
    if used_size - t * limit > 0 {
        let r = limit * (t + 1);
        proof {
            lemma_mod_mul_zero(t as int + 1, limit as int);
            assert((t as int + 1) * limit as int == limit as int * (t as int + 1))
                by (nonlinear_arith);
        }
        r
    } else {
        let r = limit * t;
        proof {
            lemma_mod_mul_zero(t as int, limit as int);
        }
        r
    }
}

proof fn lemma_mul_commute(a: int, b: int)
    by (nonlinear_arith)
    ensures
        a * b == b * a,
{
}

/// A multiple of `b` leaves no remainder.
proof fn lemma_mod_mul_zero(a: int, b: int)
    by (nonlinear_arith)
    requires
        b > 0,
    ensures
        (a * b) % b == 0,
{
}

} // verus!
