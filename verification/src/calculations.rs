//! Conversions between centimetres per full turn, pointer counts, DPI, field
//! of view and yaw.
//!
//! Every quantity with a fraction is a [`Fixed`]; every formula is the real
//! formula, rounded once to the nearest representable value.

use crate::error::MathError;
use crate::fixed::{
    count_from, fixed_from, lemma_product_bound, lemma_product_sign, lemma_round_div_exact,
    lemma_round_div_large, lemma_round_div_nat_bounds, lemma_round_div_small, magnitude,
    mul_capped_signed, round_div, round_div_exec, round_div_nat, to_count, to_fixed, trunc_div,
    trunc_div_exec, Fixed, SCALE,
};
use vstd::math::abs;
use vstd::prelude::*;

verus! {

/// `9144 * SCALE^3`, the dividend of [`turn_quotient`]: a full turn is
/// `360 * 2.54 = 914.4` centimetre-counts per inch and degree, and over two
/// raw values and ten times the DPI that many raw units are the raw quotient.
pub const FULL_TURN: u128 = 9_144_000_000_000_000_000_000_000_000_000;

/// `360 * SCALE^2`: the raw value of 360 degrees, to be divided by a raw value.
pub const TURN_DEGREES: i128 = 360_000_000_000_000_000_000;

/// `2^64 * SCALE`: a dividend beyond it has no quotient by `SCALE` in an `i64`.
pub const QUOTIENT_CAP: u128 = 18_446_744_073_709_551_616_000_000_000;

/// A field of view in degrees, with the tangent of half of it.
///
/// The tangent is not computed here: whoever builds the value supplies it.
#[derive(Clone, Copy, Debug, PartialEq, Eq, Structural)]
pub struct FovAngle {
    pub degrees: Fixed,
    pub half_tan: Fixed,
}

impl FovAngle {
    /// The angle is an odd multiple of 180 degrees.
    pub open spec fn singular(self) -> bool {
        (abs(self.degrees.raw as int) as int) % (360 * SCALE) == 180 * SCALE
    }

    /// Whether the angle is an odd multiple of 180 degrees.
    pub fn is_singular(&self) -> (r: bool)
        ensures
            r == self.singular(),
    {
        magnitude(self.degrees.raw as i128) % 360_000_000_000 == 180_000_000_000
    }
}

/// Pointer counts of a full turn: `round((cm / 2.54) * dpi)`.
pub open spec fn counts_spec(cm: Fixed, dpi: i32) -> Result<i32, MathError> {
    to_count(round_div(cm.raw * dpi * 100, 254 * SCALE))
}

/// Pointer counts of a full turn under a scope:
/// `round(counts * tan(normal / 2) / tan(scoped / 2))`.
pub open spec fn scoped_counts_spec(
    cm: Fixed,
    dpi: i32,
    normal_fov: FovAngle,
    scoped_fov: FovAngle,
) -> Result<i32, MathError> {
    if normal_fov.singular() || scoped_fov.singular() {
        Err(MathError::FovSingularity)
    } else {
        match counts_spec(cm, dpi) {
            Err(e) => Err(e),
            Ok(counts) => if scoped_fov.half_tan.raw == 0 {
                Err(MathError::DivisionByZero)
            } else {
                to_count(
                    round_div(counts * normal_fov.half_tan.raw, scoped_fov.half_tan.raw as int),
                )
            },
        }
    }
}

/// Degrees turned per count: `(360 / counts) / sens`.
pub open spec fn yaw_spec(counts: i32, sens: Fixed) -> Result<Fixed, MathError> {
    if counts <= 0 || sens.raw == 0 {
        Err(MathError::DivisionByZero)
    } else {
        to_fixed(round_div(TURN_DEGREES as int, counts * sens.raw))
    }
}

/// Field of view seen in `counts` counts: `2 * yaw * counts * sens`.
pub open spec fn fov_spec(sens: Fixed, yaw: Fixed, counts: i32) -> Result<Fixed, MathError> {
    to_fixed(round_div((yaw.raw * sens.raw) * (2 * counts), SCALE as int))
}

/// `914.4 / (a * b * dpi)`: centimetres per full turn from a sensitivity and a
/// yaw, and equally the sensitivity from centimetres per full turn and a yaw.
pub open spec fn turn_quotient(a: Fixed, b: Fixed, dpi: i32) -> Result<Fixed, MathError> {
    if a.raw == 0 || b.raw == 0 || dpi == 0 {
        Err(MathError::DivisionByZero)
    } else {
        to_fixed(round_div(FULL_TURN as int, (a.raw * b.raw) * (10 * dpi)))
    }
}

/// Centimetres per full turn from the counts of one: `2.54 * observed / dpi`.
pub open spec fn cm_from_counts_spec(observed: i32, dpi: i32) -> Result<Fixed, MathError> {
    if dpi == 0 {
        Err(MathError::DivisionByZero)
    } else {
        to_fixed(round_div(observed * 254 * SCALE, 100 * dpi))
    }
}

/// Whole pointer counts of a full turn: `(cm / 2.54) * dpi` without its
/// fraction.
pub open spec fn whole_counts_spec(cm: Fixed, dpi: i32) -> Result<i32, MathError> {
    to_count(trunc_div(cm.raw * dpi * 100, 254 * SCALE))
}

/// Field of view that `observed` counts sweep in a game at sensitivity
/// `game_sens`, whose yaw follows from the whole counts of a full turn.
pub open spec fn captured_fov_spec(
    observed: i32,
    cm: Fixed,
    dpi: i32,
    game_sens: Fixed,
) -> Result<Fixed, MathError> {
    match whole_counts_spec(cm, dpi) {
        Err(e) => Err(e),
        Ok(counts) => match yaw_spec(counts, game_sens) {
            Err(e) => Err(e),
            Ok(yaw) => fov_spec(game_sens, yaw, observed),
        },
    }
}

/// Sensitivity at another DPI and yaw that keeps the centimetres per full turn.
pub open spec fn convert_spec(
    old_sens: Fixed,
    old_dpi: i32,
    new_dpi: i32,
    yaw1: Fixed,
    yaw2: Fixed,
) -> Result<Fixed, MathError> {
    match turn_quotient(old_sens, yaw1, old_dpi) {
        Err(e) => Err(e),
        Ok(cm) => turn_quotient(cm, yaw2, new_dpi),
    }
}

/// Pointer counts that turn the view once round, for a mouse that travels
/// `cm` centimetres at `dpi` counts per inch.
pub fn calculate_counts(cm: Fixed, dpi: i32) -> (r: Result<i32, MathError>)
    ensures
        r == counts_spec(cm, dpi),
{
    proof {
        lemma_product_bound(cm.raw as int, dpi as int, 0x8000_0000_0000_0000, 0x8000_0000);
    }
    let travelled: i128 = (cm.raw as i128) * (dpi as i128) * 100;
    count_from(round_div_exec(travelled, 254_000_000_000))
}

/// Pointer counts that turn the view once round under a scope whose field of
/// view is `scoped_fov`, where `normal_fov` is the field of view without it.
pub fn calculate_scoped_counts(
    cm_per360: Fixed,
    dpi: i32,
    normal_fov: FovAngle,
    scoped_fov: FovAngle,
) -> (r: Result<i32, MathError>)
    ensures
        r == scoped_counts_spec(cm_per360, dpi, normal_fov, scoped_fov),
{
    if normal_fov.is_singular() || scoped_fov.is_singular() {
        return Err(MathError::FovSingularity);
    }
    match calculate_counts(cm_per360, dpi) {
        Err(e) => Err(e),
        Ok(counts) => {
            if scoped_fov.half_tan.raw == 0 {
                return Err(MathError::DivisionByZero);
            }
            proof {
                lemma_product_bound(
                    counts as int,
                    normal_fov.half_tan.raw as int,
                    0x8000_0000,
                    0x8000_0000_0000_0000,
                );
            }
            let scaled: i128 = (counts as i128) * (normal_fov.half_tan.raw as i128);
            count_from(round_div_exec(scaled, scoped_fov.half_tan.raw as i128))
        },
    }
}

/// Degrees that one count turns the view, from the counts of a full turn at
/// sensitivity `sens`.
pub fn calculate_yaw(counts: i32, sens: Fixed) -> (r: Result<Fixed, MathError>)
    ensures
        r == yaw_spec(counts, sens),
{
    if counts <= 0 || sens.raw == 0 {
        return Err(MathError::DivisionByZero);
    }
    proof {
        lemma_product_bound(counts as int, sens.raw as int, 0x8000_0000, 0x8000_0000_0000_0000);
        lemma_product_sign(counts as int, sens.raw as int);
    }
    let divisor: i128 = (counts as i128) * (sens.raw as i128);
    fixed_from(round_div_exec(TURN_DEGREES, divisor))
}

/// Field of view, in degrees, that `counts` counts sweep at sensitivity
/// `sens` and yaw `yaw`.
pub fn estimate_fov(sens: Fixed, yaw: Fixed, counts: i32) -> (r: Result<Fixed, MathError>)
    ensures
        r == fov_spec(sens, yaw, counts),
{
    proof {
        lemma_product_bound(
            yaw.raw as int,
            sens.raw as int,
            0x8000_0000_0000_0000,
            0x8000_0000_0000_0000,
        );
    }
    let per_count: i128 = (yaw.raw as i128) * (sens.raw as i128);
    let twice: i128 = 2 * (counts as i128);
    match mul_capped_signed(per_count, twice, QUOTIENT_CAP) {
        None => {
            proof {
                lemma_round_div_large(
                    per_count * twice,
                    SCALE as int,
                    0x1_0000_0000_0000_0000,
                );
            }
            Err(MathError::Overflow)
        },
        Some(swept) => fixed_from(round_div_exec(swept, SCALE as i128)),
    }
}

/// `914.4 / (a * b * dpi)`, the quotient behind [`calculate_cm`] and
/// [`calculate_sens`].
fn full_turn_over(a: Fixed, b: Fixed, dpi: i32) -> (r: Result<Fixed, MathError>)
    ensures
        r == turn_quotient(a, b, dpi),
{
    if a.raw == 0 || b.raw == 0 || dpi == 0 {
        return Err(MathError::DivisionByZero);
    }
    proof {
        lemma_product_bound(
            a.raw as int,
            b.raw as int,
            0x8000_0000_0000_0000,
            0x8000_0000_0000_0000,
        );
        lemma_product_sign(a.raw as int, b.raw as int);
        lemma_product_sign(a.raw * b.raw, 10 * dpi);
    }
    let product: i128 = (a.raw as i128) * (b.raw as i128);
    let per_inch: i128 = 10 * (dpi as i128);
    match mul_capped_signed(product, per_inch, 2 * FULL_TURN) {
        None => {
            proof {
                lemma_round_div_small(FULL_TURN as int, product * per_inch);
            }
            Ok(Fixed { raw: 0 })
        },
        Some(divisor) => fixed_from(round_div_exec(FULL_TURN as i128, divisor)),
    }
}

/// Centimetres the mouse travels for a full turn at sensitivity `sens`, `dpi`
/// counts per inch and `yaw` degrees per count.
pub fn calculate_cm(sens: Fixed, dpi: i32, yaw: Fixed) -> (r: Result<Fixed, MathError>)
    ensures
        r == turn_quotient(sens, yaw, dpi),
{
    full_turn_over(sens, yaw, dpi)
}

/// Sensitivity at which a full turn takes `cm_per360` centimetres, at `dpi`
/// counts per inch and `yaw` degrees per count.
pub fn calculate_sens(cm_per360: Fixed, dpi: i32, yaw: Fixed) -> (r: Result<Fixed, MathError>)
    ensures
        r == turn_quotient(cm_per360, yaw, dpi),
{
    full_turn_over(cm_per360, yaw, dpi)
}

/// Sensitivity at `new_dpi` and `yaw2` that turns as far per centimetre as
/// `old_sens` does at `old_dpi` and `yaw1`.
pub fn convert_sensitivity(
    old_sens: Fixed,
    old_dpi: i32,
    new_dpi: i32,
    yaw1: Fixed,
    yaw2: Fixed,
) -> (r: Result<Fixed, MathError>)
    ensures
        r == convert_spec(old_sens, old_dpi, new_dpi, yaw1, yaw2),
{
    match calculate_cm(old_sens, old_dpi, yaw1) {
        Err(e) => Err(e),
        Ok(cm_per360) => calculate_sens(cm_per360, new_dpi, yaw2),
    }
}

/// Centimetres the mouse travelled per full turn, from the `observed` counts
/// of one at `dpi` counts per inch.
pub fn cm_from_counts(observed: i32, dpi: i32) -> (r: Result<Fixed, MathError>)
    ensures
        r == cm_from_counts_spec(observed, dpi),
{
    if dpi == 0 {
        return Err(MathError::DivisionByZero);
    }
    let travelled: i128 = (observed as i128) * 254 * (SCALE as i128);
    fixed_from(round_div_exec(travelled, 100 * (dpi as i128)))
}

/// Field of view that `observed` counts sweep in a game at sensitivity
/// `game_sens`, for a mouse that travels `cm` centimetres per full turn at
/// `dpi` counts per inch.
pub fn captured_fov(observed: i32, cm: Fixed, dpi: i32, game_sens: Fixed) -> (r: Result<
    Fixed,
    MathError,
>)
    ensures
        r == captured_fov_spec(observed, cm, dpi, game_sens),
{
    proof {
        lemma_product_bound(cm.raw as int, dpi as int, 0x8000_0000_0000_0000, 0x8000_0000);
    }
    let travelled: i128 = (cm.raw as i128) * (dpi as i128) * 100;
    match count_from(trunc_div_exec(travelled, 254_000_000_000)) {
        Err(e) => Err(e),
        Ok(counts) => match calculate_yaw(counts, game_sens) {
            Err(e) => Err(e),
            Ok(yaw) => estimate_fov(game_sens, yaw, observed),
        },
    }
}

/// With the same field of view on both sides the scope changes nothing: the
/// scoped counts are the counts, for every angle that has a tangent other
/// than zero.
pub proof fn lemma_equal_fov_keeps_counts(cm: Fixed, dpi: i32, fov: FovAngle)
    requires
        !fov.singular(),
        fov.half_tan.raw != 0,
    ensures
        scoped_counts_spec(cm, dpi, fov, fov) == counts_spec(cm, dpi),
{
    if let Ok(counts) = counts_spec(cm, dpi) {
        lemma_round_div_exact(counts as int, fov.half_tan.raw as int);
    }
}

/// From a sensitivity to centimetres per full turn and back gives the
/// sensitivity again, up to the rounding of the two steps: with all three
/// inputs positive, twice the centimetres times the error stays below the
/// sum of sensitivity and centimetres, all in raw units. The error is thus
/// below `(sens / cm + 1) / 2` raw units, and there is none where the
/// centimetres are no less than the sensitivity. The two conversions being
/// one quotient, the same holds from centimetres to sensitivity and back.
pub proof fn lemma_sens_round_trip(sens: Fixed, dpi: i32, yaw: Fixed, cm: Fixed, back: Fixed)
    requires
        sens.raw > 0,
        dpi > 0,
        yaw.raw > 0,
        turn_quotient(sens, yaw, dpi) == Ok::<Fixed, MathError>(cm),
        turn_quotient(cm, yaw, dpi) == Ok::<Fixed, MathError>(back),
    ensures
        cm.raw > 0,
        back.raw > 0,
        2 * cm.raw * abs(back.raw - sens.raw) < sens.raw + cm.raw,
        cm.raw >= sens.raw ==> back == sens,
{
    let full = FULL_TURN as int;
    let s = sens.raw as int;
    let y = yaw.raw as int;
    let c = cm.raw as int;
    let b = back.raw as int;
    let tens = 10 * dpi;
    let d1 = (s * y) * tens;
    lemma_product_sign(s, y);
    lemma_product_sign(s * y, tens);
    assert(d1 > 0);
    lemma_round_div_nat_bounds(full as nat, d1 as nat);
    assert(c == round_div_nat(full as nat, d1 as nat));
    assert(c != 0);
    let d2 = (c * y) * tens;
    lemma_product_sign(c, y);
    lemma_product_sign(c * y, tens);
    assert(d2 > 0);
    lemma_round_div_nat_bounds(full as nat, d2 as nat);
    assert(b == round_div_nat(full as nat, d2 as nat));
    let per = y * tens;
    assert(per > 0) by (nonlinear_arith)
        requires
            y > 0,
            tens > 0,
            per == y * tens,
    ;
    assert(d1 == s * per && d2 == c * per) by (nonlinear_arith)
        requires
            d1 == (s * y) * tens,
            d2 == (c * y) * tens,
            per == y * tens,
    ;
    assert(b > 0) by (nonlinear_arith)
        requires
            2 * full + d2 < 2 * d2 * (b + 1),
            d2 > 0,
            d2 == c * per,
            2 * d1 * c <= 2 * full + d1,
            d1 == s * per,
            c >= 1,
            s >= 1,
            per >= 1,
            b >= 0,
    ;
    assert(2 * c * (b - s) < s + c) by (nonlinear_arith)
        requires
            2 * d2 * b <= 2 * full + d2,
            2 * full + d1 < 2 * d1 * (c + 1),
            d1 == s * per,
            d2 == c * per,
            per > 0,
    ;
    assert(2 * c * (s - b) < s + c) by (nonlinear_arith)
        requires
            2 * d1 * c <= 2 * full + d1,
            2 * full + d2 < 2 * d2 * (b + 1),
            d1 == s * per,
            d2 == c * per,
            per > 0,
    ;
    let error = abs(b - s) as int;
    assert(2 * c * error == if b >= s {
        2 * c * (b - s)
    } else {
        2 * c * (s - b)
    });
    if c >= s {
        assert(error == 0) by (nonlinear_arith)
            requires
                2 * c * error < s + c,
                c >= s,
                c >= 1,
                error >= 0,
        ;
    }
}

} // verus!
