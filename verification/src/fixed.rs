//! Fixed-point scalar arithmetic.
//!
//! A physical quantity (a length in meters, a speed in m/s, a force in
//! newtons, a dimensionless coefficient) is stored as an `i64` holding the
//! real value multiplied by [`SCALE`]. Products and quotients of two such
//! scalars are rescaled with truncation toward zero, and every operation
//! saturates at the `i64` range instead of overflowing, so each one is a
//! total, exactly specified function.

use vstd::arithmetic::div_mod::lemma_fundamental_div_mod;
use vstd::arithmetic::div_mod::lemma_fundamental_div_mod_converse;
use vstd::math::abs;
use vstd::prelude::*;

verus! {

/// Number of fixed-point subunits in one unit: the scalar `SCALE` stands for
/// the real value `1.0`.
pub const SCALE: i64 = 1_000_000;

/// Division rounding toward zero (the rounding used when a product or
/// quotient of scalars is rescaled), defined for positive divisors.
pub open spec fn div_trunc(a: int, b: int) -> int {
    if a >= 0 {
        a / b
    } else {
        -((-a) / b)
    }
}

/// Clamp an unbounded integer into the `i64` range.
pub open spec fn sat64(x: int) -> int {
    if x > i64::MAX {
        i64::MAX as int
    } else if x < i64::MIN {
        i64::MIN as int
    } else {
        x
    }
}

/// Saturating sum of two scalars.
pub open spec fn spec_add_sat(a: int, b: int) -> int {
    sat64(a + b)
}

/// Saturating difference of two scalars.
pub open spec fn spec_sub_sat(a: int, b: int) -> int {
    sat64(a - b)
}

/// Saturating negation of a scalar.
pub open spec fn spec_neg_sat(a: int) -> int {
    sat64(-a)
}

/// Saturating product of a plain integer count and a scalar (no rescaling).
pub open spec fn spec_mul_sat(a: int, b: int) -> int {
    sat64(a * b)
}

/// Product of two fixed-point scalars: `(a * b) / SCALE`, truncated toward
/// zero and saturated.
pub open spec fn spec_mul_fixed(a: int, b: int) -> int {
    sat64(div_trunc(a * b, SCALE as int))
}

/// Quotient of two fixed-point scalars: `(a * SCALE) / b`, truncated toward
/// zero and saturated; defined for positive `b`.
pub open spec fn spec_div_fixed(a: int, b: int) -> int {
    sat64(div_trunc(a * SCALE, b))
}

/// Sign and magnitude of a product: `|a * b| == |a| * |b|`, and the product
/// is nonnegative exactly when the signs agree.
pub proof fn lemma_mul_sign_abs(a: int, b: int)
    ensures
        abs(a * b) == abs(a) * abs(b),
        ((a < 0) != (b < 0)) ==> a * b <= 0,
        ((a < 0) == (b < 0)) ==> a * b >= 0,
{
    if a >= 0 && b >= 0 {
        assert(a * b >= 0) by (nonlinear_arith)
            requires
                a >= 0,
                b >= 0,
        ;
    } else if a < 0 && b < 0 {
        assert(a * b >= 0 && a * b == (-a) * (-b)) by (nonlinear_arith)
            requires
                a < 0,
                b < 0,
        ;
    } else if a < 0 {
        assert(a * b <= 0 && -(a * b) == (-a) * b) by (nonlinear_arith)
            requires
                a < 0,
                b >= 0,
        ;
    } else {
        assert(a * b <= 0 && -(a * b) == a * (-b)) by (nonlinear_arith)
            requires
                a >= 0,
                b < 0,
        ;
    }
}

/// Dividing zero truncates to zero.
pub proof fn lemma_div_trunc_zero(d: int)
    requires
        d > 0,
    ensures
        div_trunc(0, d) == 0,
{
    lemma_fundamental_div_mod_converse(0, d, 0, 0);
}

/// A product with a zero factor rescales to zero.
pub proof fn lemma_mul_fixed_zero(b: int)
    ensures
        spec_mul_fixed(0, b) == 0,
        spec_mul_fixed(b, 0) == 0,
{
    lemma_div_trunc_zero(SCALE as int);
}

/// Dividing a zero scalar gives zero.
pub proof fn lemma_div_fixed_zero(m: int)
    requires
        m > 0,
    ensures
        spec_div_fixed(0, m) == 0,
{
    lemma_div_trunc_zero(m);
}

/// Magnitude of a scalar as an unsigned value (total: also defined at
/// `i64::MIN`, whose magnitude does not fit in `i64`).
pub fn abs_u128(a: i64) -> (r: u128)
    ensures
        r == abs(a as int),
{
    if a >= 0 {
        a as u128
    } else {
        (-(a as i128)) as u128
    }
}

/// Whether `|a| < |b|` (total: also defined at `i64::MIN`).
pub fn abs_lt(a: i64, b: i64) -> (r: bool)
    ensures
        r == (abs(a as int) < abs(b as int)),
{
    abs_u128(a) < abs_u128(b)
}

/// Saturating addition.
pub fn add_sat(a: i64, b: i64) -> (r: i64)
    ensures
        r == spec_add_sat(a as int, b as int),
{
    let s: i128 = a as i128 + b as i128;
    if s > i64::MAX as i128 {
        i64::MAX
    } else if s < i64::MIN as i128 {
        i64::MIN
    } else {
        s as i64
    }
}

/// Saturating subtraction.
pub fn sub_sat(a: i64, b: i64) -> (r: i64)
    ensures
        r == spec_sub_sat(a as int, b as int),
{
    let s: i128 = a as i128 - b as i128;
    if s > i64::MAX as i128 {
        i64::MAX
    } else if s < i64::MIN as i128 {
        i64::MIN
    } else {
        s as i64
    }
}

/// Saturating negation.
pub fn neg_sat(a: i64) -> (r: i64)
    ensures
        r == spec_neg_sat(a as int),
{
    if a == i64::MIN {
        i64::MAX
    } else {
        -a
    }
}

/// Reassemble a quotient magnitude and a sign into a saturated `i64`.
fn apply_sign_sat(q: u128, neg: bool) -> (r: i64)
    ensures
        neg ==> r == sat64(-(q as int)),
        !neg ==> r == sat64(q as int),
{
    if neg {
        if q >= i64::MAX as u128 + 1 {
            i64::MIN
        } else {
            -(q as i64)
        }
    } else {
        if q > i64::MAX as u128 {
            i64::MAX
        } else {
            q as i64
        }
    }
}

/// Saturating product of a plain count and a scalar.
pub fn mul_sat(a: i64, b: i64) -> (r: i64)
    ensures
        r == spec_mul_sat(a as int, b as int),
{
    let ua = abs_u128(a);
    let ub = abs_u128(b);
    proof {
        lemma_mul_sign_abs(a as int, b as int);
        assert(ua * ub <= u128::MAX) by (nonlinear_arith)
            requires
                ua <= 9223372036854775808u128,
                ub <= 9223372036854775808u128,
        ;
    }
    let p: u128 = ua * ub;
    let neg = (a < 0) != (b < 0);
    apply_sign_sat(p, neg)
}

/// Product of two fixed-point scalars, rescaled by `SCALE`.
pub fn mul_fixed(a: i64, b: i64) -> (r: i64)
    ensures
        r == spec_mul_fixed(a as int, b as int),
{
    let ua = abs_u128(a);
    let ub = abs_u128(b);
    proof {
        lemma_mul_sign_abs(a as int, b as int);
        assert(ua * ub <= u128::MAX) by (nonlinear_arith)
            requires
                ua <= 9223372036854775808u128,
                ub <= 9223372036854775808u128,
        ;
    }
    let p: u128 = ua * ub;
    let q: u128 = p / (SCALE as u128);
    let neg = (a < 0) != (b < 0);
    apply_sign_sat(q, neg)
}

/// Quotient of two fixed-point scalars, rescaled by `SCALE`.
pub fn div_fixed(a: i64, b: i64) -> (r: i64)
    requires
        b > 0,
    ensures
        r == spec_div_fixed(a as int, b as int),
{
    let ua = abs_u128(a);
    proof {
        lemma_mul_sign_abs(a as int, SCALE as int);
    }
    let p: u128 = ua * (SCALE as u128);
    let q: u128 = p / (b as u128);
    let neg = a < 0;
    apply_sign_sat(q, neg)
}

/// Floor division of a scalar by a positive scalar (used to map a world
/// coordinate to its lattice cell). The result of a floor division always
/// fits in `i64`, so no saturation is involved.
pub fn floor_div(a: i64, b: i64) -> (r: i64)
    requires
        b > 0,
    ensures
        r == (a as int) / (b as int),
{
    if a >= 0 {
        let q = (a as u64) / (b as u64);
        proof {
            lemma_fundamental_div_mod(a as int, b as int);
            assert(q <= a) by (nonlinear_arith)
                requires
                    b >= 1,
                    q >= 0,
                    a as int == (b as int) * (q as int) + (a as int) % (b as int),
                    (a as int) % (b as int) >= 0,
            ;
        }
        q as i64
    } else {
        let n: u128 = (-(a as i128)) as u128;
        let dd: u128 = b as u128;
        let q0: u128 = n / dd;
        let rem: u128 = n % dd;
        proof {
            lemma_fundamental_div_mod(n as int, dd as int);
            if rem == 0 {
                assert(a as int == (-(q0 as int)) * (dd as int) + 0) by (nonlinear_arith)
                    requires
                        n == dd * q0,
                        a as int == -(n as int),
                ;
                lemma_fundamental_div_mod_converse(a as int, dd as int, -(q0 as int), 0);
            } else {
                assert(a as int == (-(q0 as int) - 1) * (dd as int) + (dd - rem)) by (nonlinear_arith)
                    requires
                        n == dd * q0 + rem,
                        a as int == -(n as int),
                ;
                lemma_fundamental_div_mod_converse(
                    a as int,
                    dd as int,
                    -(q0 as int) - 1,
                    dd as int - rem as int,
                );
                assert(q0 < 9223372036854775808u128) by (nonlinear_arith)
                    requires
                        n == dd * q0 + rem,
                        1 <= rem < dd,
                        n <= 9223372036854775808u128,
                ;
            }
        }
        if rem == 0 {
            if q0 >= i64::MAX as u128 + 1 {
                i64::MIN
            } else {
                -(q0 as i64)
            }
        } else {
            -(q0 as i64) - 1
        }
    }
}

/// The smaller of two scalars.
pub fn min(a: i64, b: i64) -> (r: i64)
    ensures
        r == if a > b { b as int } else { a as int },
{
    if a > b {
        b
    } else {
        a
    }
}

/// The larger of two scalars.
pub fn max(a: i64, b: i64) -> (r: i64)
    ensures
        r == if a > b { a as int } else { b as int },
{
    if a > b {
        a
    } else {
        b
    }
}

} // verus!
