//! Fixed-point interpolation arithmetic shared by the drivers.
//!
//! The real-valued quantity `diff * num / den` becomes integer
//! arithmetic that truncates toward zero, matching how a displacement
//! rate is integrated tick by tick.

use vstd::prelude::*;

verus! {

/// Magnitude bound on the first factor of [`scaled`] (2^41).
pub const MUL_A_BOUND: i64 = 0x200_0000_0000;
/// Bound on the second factor of [`scaled`] (2^20).
pub const MUL_M_BOUND: u64 = 0x10_0000;

/// `a * m / d`, truncating toward zero (the sign is carried by `a`;
/// `m` and `d` are non-negative).
pub open spec fn scaled_spec(a: int, m: int, d: int) -> int {
    if a >= 0 {
        (a * m) / d
    } else {
        -(((-a) * m) / d)
    }
}

/// The scaled value is no larger in magnitude than `a * m`.
pub proof fn lemma_scaled_bound(a: int, m: int, d: int)
    requires
        0 <= m,
        1 <= d,
    ensures
        a >= 0 ==> 0 <= scaled_spec(a, m, d) <= a * m,
        a < 0 ==> a * m <= scaled_spec(a, m, d) <= 0,
{
    if a >= 0 {
        assert(0 <= (a * m) / d <= a * m) by (nonlinear_arith)
            requires 0 <= a * m, 1 <= d;
        assert(0 <= a * m) by (nonlinear_arith)
            requires a >= 0, m >= 0;
    } else {
        assert(0 <= ((-a) * m) / d <= (-a) * m) by (nonlinear_arith)
            requires 0 <= (-a) * m, 1 <= d;
        assert(0 <= (-a) * m) by (nonlinear_arith)
            requires -a >= 0, m >= 0;
        assert((-a) * m == -(a * m)) by (nonlinear_arith);
    }
}

/// Executable counterpart of [`scaled_spec`] on machine integers.
pub fn scaled(a: i64, m: u64, d: u64) -> (r: i64)
    requires
        -MUL_A_BOUND <= a <= MUL_A_BOUND,
        m <= MUL_M_BOUND,
        1 <= d,
    ensures
        r == scaled_spec(a as int, m as int, d as int),
        -MUL_A_BOUND * MUL_M_BOUND <= r <= MUL_A_BOUND * MUL_M_BOUND,
{
    proof {
        lemma_scaled_bound(a as int, m as int, d as int);
        assert(a as int * m as int <= MUL_A_BOUND * MUL_M_BOUND) by (nonlinear_arith)
            requires a <= MUL_A_BOUND, m <= MUL_M_BOUND, 0 <= m;
        assert((-(a as int)) * m as int <= MUL_A_BOUND * MUL_M_BOUND) by (nonlinear_arith)
            requires -(a as int) <= MUL_A_BOUND, m <= MUL_M_BOUND, 0 <= m;
    }
    if a >= 0 {
        let p: u64 = (a as u64) * m;
        (p / d) as i64
    } else {
        let neg: i64 = -a;
        let p: u64 = (neg as u64) * m;
        -((p / d) as i64)
    }
}

} // verus!
