//! Saturating fixed-point scalars.
//!
//! A quantity (position, velocity, acceleration, time) is an `i64` holding
//! the value scaled by [`FX_ONE`] (six decimal places). Multiplication,
//! division and square root round toward zero; every operation saturates at
//! the `i64` range instead of overflowing, so all operations are total and
//! each has an exact mathematical description as a spec function.

use vstd::prelude::*;

verus! {

/// Number of raw units in 1.0: fixed-point values carry six decimal places.
pub const FX_ONE: i64 = 1_000_000;

/// Fixed-point one half.
pub const FX_HALF: i64 = 500_000;

/// Fixed-point two.
pub const FX_TWO: i64 = 2_000_000;

/// Absolute value of a mathematical integer.
pub open spec fn abs_int(x: int) -> int {
    if x < 0 {
        -x
    } else {
        x
    }
}

/// Clamp a mathematical integer into the `i64` range.
pub open spec fn sat64(x: int) -> int {
    if x > i64::MAX as int {
        i64::MAX as int
    } else if x < i64::MIN as int {
        i64::MIN as int
    } else {
        x
    }
}

/// Division rounding toward zero, with quotient 0 on a zero divisor.
pub open spec fn div_rtz(n: int, d: int) -> int {
    if d == 0 {
        0
    } else {
        let q = abs_int(n) / abs_int(d);
        if (n < 0) == (d < 0) {
            q
        } else {
            -q
        }
    }
}

/// Fixed-point product: `a * b` rescaled, rounded toward zero, saturated.
pub open spec fn fxs_mul(a: int, b: int) -> int {
    sat64(div_rtz(a * b, FX_ONE as int))
}

/// Fixed-point quotient: `a / b` rescaled, rounded toward zero, saturated;
/// 0 on a zero divisor.
pub open spec fn fxs_div(a: int, b: int) -> int {
    sat64(div_rtz(a * (FX_ONE as int), b))
}

/// Saturating sum.
pub open spec fn fxs_add(a: int, b: int) -> int {
    sat64(a + b)
}

/// Saturating difference.
pub open spec fn fxs_sub(a: int, b: int) -> int {
    sat64(a - b)
}

/// Saturating negation.
pub open spec fn fxs_neg(a: int) -> int {
    sat64(-a)
}

/// Saturating absolute value.
pub open spec fn fxs_abs(a: int) -> int {
    sat64(abs_int(a))
}

/// Floor of the square root of a natural number.
pub open spec fn sqrt_floor(x: nat) -> nat
    decreases x,
{
    if x == 0 {
        0
    } else {
        let r = sqrt_floor((x - 1) as nat);
        if (r + 1) * (r + 1) <= x {
            r + 1
        } else {
            r
        }
    }
}

/// Fixed-point square root: `sqrt(a)` rounded toward zero; 0 for `a <= 0`.
pub open spec fn fxs_sqrt(a: int) -> int {
    if a <= 0 {
        0
    } else {
        sqrt_floor((a * (FX_ONE as int)) as nat) as int
    }
}

pub proof fn lemma_sqrt_floor_bounds(x: nat)
    ensures
        sqrt_floor(x) * sqrt_floor(x) <= x,
        x < (sqrt_floor(x) + 1) * (sqrt_floor(x) + 1),
    decreases x,
{
    if x == 0 {
        assert(sqrt_floor(0) == 0);
        assert(x < (sqrt_floor(x) + 1) * (sqrt_floor(x) + 1)) by (nonlinear_arith)
            requires
                x == 0,
                sqrt_floor(x) == 0,
        ;
    } else {
        lemma_sqrt_floor_bounds((x - 1) as nat);
        let r = sqrt_floor((x - 1) as nat);
        assert(r * r <= x - 1);
        assert(x - 1 < (r + 1) * (r + 1));
        if (r + 1) * (r + 1) <= x {
            assert(sqrt_floor(x) == r + 1);
            assert(x <= (r + 1) * (r + 1));
            assert((r + 1) * (r + 1) < (r + 2) * (r + 2)) by (nonlinear_arith);
            assert(sqrt_floor(x) * sqrt_floor(x) <= x);
            assert(x < (sqrt_floor(x) + 1) * (sqrt_floor(x) + 1));
        } else {
            assert(sqrt_floor(x) == r);
            assert(sqrt_floor(x) * sqrt_floor(x) <= x);
            assert(x < (sqrt_floor(x) + 1) * (sqrt_floor(x) + 1));
        }
    }
}

pub proof fn lemma_sqrt_floor_unique(x: nat, r: nat)
    requires
        r * r <= x,
        x < (r + 1) * (r + 1),
    ensures
        r == sqrt_floor(x),
{
    let s = sqrt_floor(x);
    lemma_sqrt_floor_bounds(x);
    assert(r == s) by (nonlinear_arith)
        requires
            r * r <= x,
            x < (r + 1) * (r + 1),
            s * s <= x,
            x < (s + 1) * (s + 1),
    ;
}

/// Multiplying by fixed-point zero gives zero.
pub proof fn lemma_fxs_mul_zero(a: int)
    ensures
        fxs_mul(a, 0) == 0,
        fxs_mul(0, a) == 0,
{
    assert(a * 0 == 0);
    assert(0 * a == 0);
}

/// Magnitude of an `i64` as a `u128`.
fn mag_u128(a: i64) -> (m: u128)
    ensures
        m as int == abs_int(a as int),
{
    if a >= 0 {
        a as u128
    } else if a == i64::MIN {
        9_223_372_036_854_775_808u128
    } else {
        (-a) as u128
    }
}

/// Apply a sign to a magnitude and saturate into the `i64` range.
fn sat_signed(neg: bool, m: u128) -> (r: i64)
    ensures
        r as int == sat64(
            if neg {
                -(m as int)
            } else {
                m as int
            },
        ),
{
    if neg {
        if m >= 9_223_372_036_854_775_808u128 {
            i64::MIN
        } else {
            -(m as i64)
        }
    } else {
        if m > i64::MAX as u128 {
            i64::MAX
        } else {
            m as i64
        }
    }
}

/// Saturating fixed-point addition.
pub fn fx_add(a: i64, b: i64) -> (r: i64)
    ensures
        r as int == fxs_add(a as int, b as int),
{
    let s: i128 = a as i128 + b as i128;
    if s > i64::MAX as i128 {
        i64::MAX
    } else if s < i64::MIN as i128 {
        i64::MIN
    } else {
        s as i64
    }
}

/// Saturating fixed-point subtraction.
pub fn fx_sub(a: i64, b: i64) -> (r: i64)
    ensures
        r as int == fxs_sub(a as int, b as int),
{
    let s: i128 = a as i128 - b as i128;
    if s > i64::MAX as i128 {
        i64::MAX
    } else if s < i64::MIN as i128 {
        i64::MIN
    } else {
        s as i64
    }
}

/// Saturating negation.
pub fn fx_neg(a: i64) -> (r: i64)
    ensures
        r as int == fxs_neg(a as int),
{
    if a == i64::MIN {
        i64::MAX
    } else {
        -a
    }
}

/// Saturating absolute value.
pub fn fx_abs(a: i64) -> (r: i64)
    ensures
        r as int == fxs_abs(a as int),
{
    if a < 0 {
        fx_neg(a)
    } else {
        a
    }
}

/// The smaller of two fixed-point values.
pub fn fx_min(a: i64, b: i64) -> (r: i64)
    ensures
        r == if a <= b {
            a
        } else {
            b
        },
{
    if a <= b {
        a
    } else {
        b
    }
}

/// Saturating fixed-point multiplication, rounding toward zero.
pub fn fx_mul(a: i64, b: i64) -> (r: i64)
    ensures
        r as int == fxs_mul(a as int, b as int),
{
    let ma = mag_u128(a);
    let mb = mag_u128(b);
    proof {
        assert(ma * mb <= 0x8000_0000_0000_0000 * 0x8000_0000_0000_0000) by (nonlinear_arith)
            requires
                ma <= 0x8000_0000_0000_0000,
                mb <= 0x8000_0000_0000_0000,
        ;
    }
    let p = ma * mb;
    let q = p / 1_000_000u128;
    proof {
        assert(abs_int(a as int * b as int) == abs_int(a as int) * abs_int(b as int))
            by (nonlinear_arith);
        assert((a as int) * (b as int) < 0 ==> ((a as int) < 0) != ((b as int) < 0))
            by (nonlinear_arith);
        assert((a as int) * (b as int) > 0 ==> ((a as int) < 0) == ((b as int) < 0))
            by (nonlinear_arith);
    }
    sat_signed((a < 0) != (b < 0), q)
}

/// Saturating fixed-point division, rounding toward zero; 0 on a zero divisor.
pub fn fx_div(a: i64, b: i64) -> (r: i64)
    ensures
        r as int == fxs_div(a as int, b as int),
{
    if b == 0 {
        return 0;
    }
    let ma = mag_u128(a);
    let mb = mag_u128(b);
    proof {
        assert(ma * 1_000_000 <= 0x8000_0000_0000_0000 * 1_000_000) by (nonlinear_arith)
            requires
                ma <= 0x8000_0000_0000_0000,
        ;
    }
    let p = ma * 1_000_000u128;
    let q = p / mb;
    proof {
        assert(abs_int(a as int * (FX_ONE as int)) == abs_int(a as int) * (FX_ONE as int))
            by (nonlinear_arith);
        assert((a as int) * (FX_ONE as int) < 0 ==> (a as int) < 0) by (nonlinear_arith);
        assert((a as int) * (FX_ONE as int) > 0 ==> (a as int) > 0) by (nonlinear_arith);
    }
    sat_signed((a < 0) != (b < 0), q)
}

/// Floor of the square root of a `u128`.
fn isqrt_u128(x: u128) -> (r: u64)
    ensures
        (r as nat) * (r as nat) <= x as nat,
        (x as nat) < ((r as nat) + 1) * ((r as nat) + 1),
{
    let mut lo: u128 = 0;
    let mut hi: u128 = 0x1_0000_0000_0000_0000;
    proof {
        assert((x as int) < 0x1_0000_0000_0000_0000int * 0x1_0000_0000_0000_0000int);
    }
    while lo + 1 < hi
        invariant
            lo < hi,
            hi <= 0x1_0000_0000_0000_0000,
            (lo as nat) * (lo as nat) <= x as nat,
            (x as nat) < (hi as nat) * (hi as nat),
        decreases hi - lo,
    {
        let mid = lo + (hi - lo) / 2;
        proof {
            assert(mid * mid < 0x1_0000_0000_0000_0000 * 0x1_0000_0000_0000_0000)
                by (nonlinear_arith)
                requires
                    mid < 0x1_0000_0000_0000_0000,
            ;
        }
        if mid * mid <= x {
            lo = mid;
        } else {
            hi = mid;
        }
    }
    lo as u64
}

/// Fixed-point square root, rounding toward zero; 0 for a non-positive input.
pub fn fx_sqrt(a: i64) -> (r: i64)
    ensures
        r as int == fxs_sqrt(a as int),
{
    if a <= 0 {
        return 0;
    }
    let x = (a as u128) * 1_000_000u128;
    let r = isqrt_u128(x);
    proof {
        lemma_sqrt_floor_unique(x as nat, r as nat);
        assert((r as nat) * (r as nat) <= x as nat);
        assert(r as int <= 0x4_0000_0000_0000int) by (nonlinear_arith)
            requires
                (r as nat) * (r as nat) <= x as nat,
                x as nat <= 0x8000_0000_0000_0000nat * 1_000_000nat,
        ;
    }
    r as i64
}

} // verus!
