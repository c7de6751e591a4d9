//! Decimal fixed-point numbers and the rounding division every formula of the
//! library is built from.

use crate::error::MathError;
use vstd::arithmetic::div_mod::{
    lemma_div_nonincreasing, lemma_div_pos_is_pos, lemma_fundamental_div_mod,
    lemma_fundamental_div_mod_converse,
};
use vstd::math::abs;
use vstd::prelude::*;

verus! {

/// Number of raw units in one whole: a [`Fixed`] carries nine decimal places.
pub const SCALE: i64 = 1_000_000_000;

/// A decimal fixed-point number: the value it stands for is `raw / SCALE`.
#[derive(Clone, Copy, Debug, PartialEq, Eq, Structural)]
pub struct Fixed {
    pub raw: i64,
}

impl Fixed {
    /// The number that stands for `raw / SCALE`.
    pub fn new(raw: i64) -> (r: Fixed)
        ensures
            r.raw == raw,
    {
        Fixed { raw }
    }

    /// The whole number `whole`.
    pub fn from_int(whole: i32) -> (r: Fixed)
        ensures
            r.raw == whole * SCALE,
    {
        Fixed { raw: (whole as i64) * SCALE }
    }
}

/// `n / d` rounded to the nearest natural number, a tie going up.
pub open spec fn round_div_nat(n: nat, d: nat) -> nat
    recommends
        d > 0,
{
    ((2 * n + d) / (2 * d)) as nat
}

/// `n / d` rounded to the nearest integer, a tie going away from zero.
pub open spec fn round_div(n: int, d: int) -> int
    recommends
        d != 0,
{
    if (n < 0) == (d < 0) {
        round_div_nat(abs(n), abs(d)) as int
    } else {
        -(round_div_nat(abs(n), abs(d)) as int)
    }
}

/// `n / d` with the fraction dropped, that is rounded towards zero.
pub open spec fn trunc_div(n: int, d: int) -> int
    recommends
        d != 0,
{
    if (n < 0) == (d < 0) {
        (abs(n) / abs(d)) as int
    } else {
        -((abs(n) / abs(d)) as int)
    }
}

/// The fixed-point number with raw value `v`, where it has one.
pub open spec fn to_fixed(v: int) -> Result<Fixed, MathError> {
    if i64::MIN <= v <= i64::MAX {
        Ok(Fixed { raw: v as i64 })
    } else {
        Err(MathError::Overflow)
    }
}

/// The pointer count `v`, where it fits.
pub open spec fn to_count(v: int) -> Result<i32, MathError> {
    if i32::MIN <= v <= i32::MAX {
        Ok(v as i32)
    } else {
        Err(MathError::Overflow)
    }
}

/// The rounded quotient is the floor quotient, plus one when twice the
/// remainder reaches the divisor.
pub proof fn lemma_round_div_nat_parts(n: nat, d: nat)
    requires
        d > 0,
    ensures
        2 * (n % d) >= d ==> round_div_nat(n, d) == n / d + 1,
        2 * (n % d) < d ==> round_div_nat(n, d) == n / d,
        2 * (n % d) >= d ==> 2 * (n / d + 1) <= n + 1,
{
    let q = n as int / d as int;
    let r = n as int % d as int;
    lemma_fundamental_div_mod(n as int, d as int);
    assert(q >= 0) by (nonlinear_arith)
        requires
            n == d * q + r,
            0 <= r < d,
            n >= 0,
            d > 0,
    ;
    let num = 2 * n + d;
    let den = 2 * d;
    if 2 * r >= d {
        assert(num == (q + 1) * den + (2 * r - d)) by (nonlinear_arith)
            requires
                n == d * q + r,
                num == 2 * n + d,
                den == 2 * d,
        ;
        lemma_fundamental_div_mod_converse(num as int, den as int, q + 1, 2 * r - d);
        assert(2 * (q + 1) <= n + 1) by (nonlinear_arith)
            requires
                n == d * q + r,
                2 * r >= d,
                d >= 1,
                q >= 0,
                r < d,
        ;
    } else {
        assert(num == q * den + (2 * r + d)) by (nonlinear_arith)
            requires
                n == d * q + r,
                num == 2 * n + d,
                den == 2 * d,
        ;
        lemma_fundamental_div_mod_converse(num as int, den as int, q, 2 * r + d);
    }
}

/// The rounded quotient is the one natural number within half a divisor of
/// the exact quotient, the upper half-way point included.
pub proof fn lemma_round_div_nat_bounds(n: nat, d: nat)
    requires
        d > 0,
    ensures
        2 * d * round_div_nat(n, d) <= 2 * n + d < 2 * d * (round_div_nat(n, d) + 1),
{
    let num = (2 * n + d) as int;
    let den = (2 * d) as int;
    lemma_fundamental_div_mod(num, den);
    let q = num / den;
    let r = num % den;
    assert(q >= 0 && 2 * d * q <= 2 * n + d < 2 * d * (q + 1)) by (nonlinear_arith)
        requires
            num == den * q + r,
            0 <= r < den,
            num == 2 * n + d,
            den == 2 * d,
            d > 0,
    ;
}

/// Whatever lies within half a divisor of the exact quotient is the rounded
/// quotient.
pub proof fn lemma_round_div_nat_unique(n: nat, d: nat, q: nat)
    requires
        d > 0,
        2 * d * q <= 2 * n + d < 2 * d * (q + 1),
    ensures
        round_div_nat(n, d) == q,
{
    let num = (2 * n + d) as int;
    let den = (2 * d) as int;
    let r = num - q * den;
    assert(0 <= r < den && num == q * den + r) by (nonlinear_arith)
        requires
            2 * d * q <= 2 * n + d < 2 * d * (q + 1),
            num == 2 * n + d,
            den == 2 * d,
            r == num - q * den,
    ;
    lemma_fundamental_div_mod_converse(num, den, q as int, r);
}

/// Rounded quotient of two magnitudes.
pub fn round_quotient(n: u128, d: u128) -> (q: u128)
    requires
        d > 0,
    ensures
        q == round_div_nat(n as nat, d as nat),
{
    let whole: u128 = n / d;
    let rest: u128 = n % d;
    proof {
        lemma_round_div_nat_parts(n as nat, d as nat);
    }
    if rest >= d - rest {
        whole + 1
    } else {
        whole
    }
}

/// Distance of `x` from zero.
pub fn magnitude(x: i128) -> (m: u128)
    ensures
        m == abs(x as int),
{
    if x >= 0 {
        x as u128
    } else {
        let below: i128 = -(x + 1);
        (below as u128) + 1
    }
}

/// Product of two magnitudes where it stays within `cap`.
pub fn mul_capped(a: u128, b: u128, cap: u128) -> (r: Option<u128>)
    ensures
        r == (if a * b <= cap {
            Some((a * b) as u128)
        } else {
            None
        }),
{
    if b == 0 {
        assert(a * b == 0) by (nonlinear_arith)
            requires
                b == 0,
        ;
        return Some(0);
    }
    let most: u128 = cap / b;
    proof {
        lemma_fundamental_div_mod(cap as int, b as int);
    }
    if a > most {
        assert(a * b > cap) by (nonlinear_arith)
            requires
                a >= most + 1,
                cap == b * most + cap % b,
                0 <= cap % b < b,
        ;
        None
    } else {
        assert(a * b <= cap) by (nonlinear_arith)
            requires
                0 <= a <= most,
                cap == b * most + cap % b,
                0 <= cap % b < b,
        ;
        Some(a * b)
    }
}

/// Sign and magnitude of a product.
pub proof fn lemma_product_sign(x: int, y: int)
    ensures
        abs(x * y) == abs(x) * abs(y),
        x * y == 0 <==> x == 0 || y == 0,
        x * y < 0 <==> (x != 0 && y != 0 && ((x < 0) != (y < 0))),
{
    assert(abs(x * y) == abs(x) * abs(y)) by (nonlinear_arith);
    assert(x * y == 0 <==> x == 0 || y == 0) by (nonlinear_arith);
    assert(x * y < 0 <==> (x != 0 && y != 0 && ((x < 0) != (y < 0)))) by (nonlinear_arith);
}

/// A product of two factors is no larger than the product of their bounds.
pub proof fn lemma_product_bound(x: int, y: int, bx: int, by: int)
    requires
        -bx <= x <= bx,
        -by <= y <= by,
    ensures
        -(bx * by) <= x * y <= bx * by,
{
    assert(-(bx * by) <= x * y <= bx * by) by (nonlinear_arith)
        requires
            -bx <= x <= bx,
            -by <= y <= by,
    ;
}

/// A rounded quotient is no further from zero than the dividend, and it is
/// zero where the divisor is more than twice the dividend.
pub proof fn lemma_round_div_small(n: int, d: int)
    requires
        d != 0,
    ensures
        abs(round_div(n, d)) <= abs(n),
        abs(d) > 2 * abs(n) ==> round_div(n, d) == 0,
{
    let an = abs(n);
    let ad = abs(d);
    lemma_round_div_nat_bounds(an, ad);
    let q = round_div_nat(an, ad);
    assert(q <= an) by (nonlinear_arith)
        requires
            2 * ad * q <= 2 * an + ad,
            ad >= 1,
            q >= 0,
            an >= 0,
    ;
    if ad > 2 * an {
        assert(q == 0) by (nonlinear_arith)
            requires
                2 * ad * q <= 2 * an + ad,
                ad > 2 * an,
                q >= 0,
                an >= 0,
        ;
    }
}

/// A rounded quotient is at least `k` in magnitude where the dividend is at
/// least `k` divisors in magnitude.
pub proof fn lemma_round_div_large(n: int, d: int, k: nat)
    requires
        d != 0,
        abs(n) >= k * abs(d),
    ensures
        abs(round_div(n, d)) >= k,
{
    let an = abs(n);
    let ad = abs(d);
    lemma_round_div_nat_bounds(an, ad);
    let q = round_div_nat(an, ad);
    assert(q >= k) by (nonlinear_arith)
        requires
            2 * an + ad < 2 * ad * (q + 1),
            an >= k * ad,
            ad >= 1,
            q >= 0,
            k >= 0,
    ;
}

/// A multiple of the divisor divides without rounding.
pub proof fn lemma_round_div_exact(k: int, d: int)
    requires
        d != 0,
    ensures
        round_div(k * d, d) == k,
{
    lemma_product_sign(k, d);
    let ak = abs(k);
    let ad = abs(d);
    assert(2 * ad * ak <= 2 * (ak * ad) + ad < 2 * ad * (ak + 1)) by (nonlinear_arith)
        requires
            ad >= 1,
            ak >= 0,
    ;
    lemma_round_div_nat_unique(ak * ad, ad, ak);
}

/// `n / d` rounded to the nearest integer, a tie going away from zero.
pub fn round_div_exec(n: i128, d: i128) -> (q: i128)
    requires
        d != 0,
        n > i128::MIN,
    ensures
        q == round_div(n as int, d as int),
{
    let size: u128 = round_quotient(magnitude(n), magnitude(d));
    proof {
        lemma_round_div_small(n as int, d as int);
    }
    if (n < 0) == (d < 0) {
        size as i128
    } else {
        -(size as i128)
    }
}

/// `n / d` with the fraction dropped.
pub fn trunc_div_exec(n: i128, d: i128) -> (q: i128)
    requires
        d != 0,
        n > i128::MIN,
    ensures
        q == trunc_div(n as int, d as int),
{
    let size: u128 = magnitude(n) / magnitude(d);
    proof {
        lemma_div_nonincreasing(abs(n as int) as int, abs(d as int) as int);
        lemma_div_pos_is_pos(abs(n as int) as int, abs(d as int) as int);
    }
    if (n < 0) == (d < 0) {
        size as i128
    } else {
        -(size as i128)
    }
}

/// Product of two integers where its magnitude stays within `cap`.
pub fn mul_capped_signed(x: i128, y: i128, cap: u128) -> (r: Option<i128>)
    requires
        cap <= i128::MAX,
    ensures
        r == (if abs(x * y) <= cap {
            Some((x * y) as i128)
        } else {
            None
        }),
{
    proof {
        lemma_product_sign(x as int, y as int);
    }
    match mul_capped(magnitude(x), magnitude(y), cap) {
        None => None,
        Some(size) => {
            if (x < 0) == (y < 0) {
                Some(size as i128)
            } else {
                Some(-(size as i128))
            }
        },
    }
}

/// The fixed-point number with raw value `v`, where it has one.
pub fn fixed_from(v: i128) -> (r: Result<Fixed, MathError>)
    ensures
        r == to_fixed(v as int),
{
    if v < i64::MIN as i128 || v > i64::MAX as i128 {
        Err(MathError::Overflow)
    } else {
        Ok(Fixed { raw: v as i64 })
    }
}

/// The pointer count `v`, where it fits.
pub fn count_from(v: i128) -> (r: Result<i32, MathError>)
    ensures
        r == to_count(v as int),
{
    if v < i32::MIN as i128 || v > i32::MAX as i128 {
        Err(MathError::Overflow)
    } else {
        Ok(v as i32)
    }
}

} // verus!
