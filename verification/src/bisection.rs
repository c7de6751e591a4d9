//! The yaw bisection: an estimate of the degrees turned per count, seeded
//! from one captured turn and narrowed between two limits as the player
//! judges each estimate.

use crate::error::MathError;
use crate::fixed::{
    count_from, fixed_from, lemma_product_bound, lemma_round_div_nat_bounds, round_div,
    round_div_exec, to_count, to_fixed, Fixed, SCALE,
};
use crate::models::YawStuff;
use vstd::math::abs;
use vstd::prelude::*;

verus! {

/// How the player judged the current estimate: which half of the bracket to
/// keep.
#[derive(Clone, Copy, Debug, PartialEq, Eq, Structural)]
pub enum Narrow {
    /// Keep the lower half: the estimate becomes the upper limit.
    Down,
    /// Keep the upper half: the estimate becomes the lower limit.
    Up,
}

/// `360 * SCALE`: the raw value of 360 degrees.
pub const FULL_CIRCLE: i128 = 360_000_000_000;

/// `x * tenths / 10`.
pub open spec fn tenths_of(x: Fixed, tenths: int) -> Result<Fixed, MathError> {
    to_fixed(round_div(x.raw * tenths, 10))
}

/// The calibration at sensitivity `sens` whose full turn takes `counts`
/// counts of `inc` degrees: the estimate is `inc / sens`, the limits lie a
/// tenth of it below and above.
pub open spec fn bracket_spec(sens: Fixed, counts: i32, inc: Fixed) -> Result<YawStuff, MathError> {
    if sens.raw == 0 {
        Err(MathError::DivisionByZero)
    } else {
        match to_fixed(round_div(inc.raw * SCALE, sens.raw as int)) {
            Err(e) => Err(e),
            Ok(yaw) => match (tenths_of(yaw, 9), tenths_of(yaw, 11)) {
                (Ok(lower_limit), Ok(upper_limit)) => Ok(
                    YawStuff { sens, counts, inc, yaw, lower_limit, upper_limit },
                ),
                (Err(e), _) => Err(e),
                (_, Err(e)) => Err(e),
            },
        }
    }
}

/// The calibration after a captured full turn of `observed` counts.
pub open spec fn seed_spec(state: YawStuff, observed: i32) -> Result<YawStuff, MathError> {
    if observed <= 0 {
        Err(MathError::DivisionByZero)
    } else {
        match to_fixed(round_div(FULL_CIRCLE as int, observed as int)) {
            Err(e) => Err(e),
            Ok(inc) => bracket_spec(state.sens, observed, inc),
        }
    }
}

/// The calibration after one narrowing step: the estimate becomes one of the
/// limits and then the middle of the new bracket; `inc` is `sens * yaw` and
/// `counts` is `round(360 / inc)`.
pub open spec fn narrow_spec(state: YawStuff, step: Narrow) -> Result<YawStuff, MathError> {
    let lower_limit = if step is Up {
        state.yaw
    } else {
        state.lower_limit
    };
    let upper_limit = if step is Down {
        state.yaw
    } else {
        state.upper_limit
    };
    match to_fixed(round_div(lower_limit.raw + upper_limit.raw, 2)) {
        Err(e) => Err(e),
        Ok(yaw) => match to_fixed(round_div(state.sens.raw * yaw.raw, SCALE as int)) {
            Err(e) => Err(e),
            Ok(inc) => if inc.raw == 0 {
                Err(MathError::DivisionByZero)
            } else {
                match to_count(round_div(FULL_CIRCLE as int, inc.raw as int)) {
                    Err(e) => Err(e),
                    Ok(counts) => Ok(
                        YawStuff { sens: state.sens, counts, inc, yaw, lower_limit, upper_limit },
                    ),
                }
            },
        },
    }
}

/// The calibration after a run of narrowing steps, one that has no result
/// leaving it as it was.
pub open spec fn narrow_all(state: YawStuff, steps: Seq<Narrow>) -> YawStuff
    decreases steps.len(),
{
    if steps.len() == 0 {
        state
    } else {
        let before = narrow_all(state, steps.drop_last());
        match narrow_spec(before, steps.last()) {
            Ok(after) => after,
            Err(_) => before,
        }
    }
}

/// The middle of two numbers lies between them.
pub proof fn lemma_middle_between(low: int, high: int)
    requires
        low <= high,
    ensures
        low <= round_div(low + high, 2) <= high,
{
    lemma_round_div_nat_bounds(abs(low + high), 2);
}

/// Nine tenths of a number that is not negative lie at or below it, eleven
/// tenths at or above.
pub proof fn lemma_tenths_around(x: int)
    requires
        x >= 0,
    ensures
        0 <= round_div(x * 9, 10) <= x <= round_div(x * 11, 10),
{
    lemma_round_div_nat_bounds(abs(x * 9), 10);
    lemma_round_div_nat_bounds(abs(x * 11), 10);
}

/// At a positive sensitivity a calibration starts with the estimate within
/// its limits, whatever the counts and the degrees per count.
pub proof fn lemma_bracket_spec_is_bracketed(sens: Fixed, counts: i32, inc: Fixed)
    requires
        sens.raw > 0,
        inc.raw >= 0,
    ensures
        bracket_spec(sens, counts, inc) matches Ok(state) ==> state.bracketed(),
{
    assert(inc.raw * SCALE >= 0) by (nonlinear_arith)
        requires
            inc.raw >= 0,
    ;
    if let Ok(yaw) = to_fixed(round_div(inc.raw * SCALE, sens.raw as int)) {
        lemma_tenths_around(yaw.raw as int);
    }
}

/// At a positive sensitivity a captured turn seeds a calibration with the
/// estimate within its limits.
pub proof fn lemma_seed_is_bracketed(state: YawStuff, observed: i32)
    requires
        state.sens.raw > 0,
    ensures
        seed_spec(state, observed) matches Ok(seeded) ==> seeded.bracketed(),
{
    if observed > 0 {
        if let Ok(inc) = to_fixed(round_div(FULL_CIRCLE as int, observed as int)) {
            lemma_bracket_spec_is_bracketed(state.sens, observed, inc);
        }
    }
}

/// One narrowing step keeps the estimate within its limits.
pub proof fn lemma_narrow_keeps_bracket(state: YawStuff, step: Narrow)
    requires
        state.bracketed(),
    ensures
        narrow_spec(state, step) matches Ok(after) ==> after.bracketed(),
{
    if step is Up {
        lemma_middle_between(state.yaw.raw as int, state.upper_limit.raw as int);
    } else {
        lemma_middle_between(state.lower_limit.raw as int, state.yaw.raw as int);
    }
}

/// A run of narrowing steps ends with the estimate within its limits.
pub proof fn lemma_bracket_holds_after(state: YawStuff, steps: Seq<Narrow>)
    requires
        state.bracketed(),
    ensures
        narrow_all(state, steps).bracketed(),
    decreases steps.len(),
{
    if steps.len() > 0 {
        lemma_bracket_holds_after(state, steps.drop_last());
        lemma_narrow_keeps_bracket(narrow_all(state, steps.drop_last()), steps.last());
    }
}

/// Whatever narrowing steps follow one another, the estimate lies within its
/// limits after every one of them.
pub proof fn lemma_bracket_holds_throughout(state: YawStuff, steps: Seq<Narrow>)
    requires
        state.bracketed(),
    ensures
        forall|k: int|
            0 <= k <= steps.len() ==> (#[trigger] narrow_all(state, steps.take(k))).bracketed(),
{
    assert forall|k: int| 0 <= k <= steps.len() implies (#[trigger] narrow_all(
        state,
        steps.take(k),
    )).bracketed() by {
        lemma_bracket_holds_after(state, steps.take(k));
    }
}

/// From a captured turn at a positive sensitivity onwards, the estimate lies
/// within its limits after the seeding and after every narrowing step.
pub proof fn lemma_seeded_bracket_holds(state: YawStuff, observed: i32, steps: Seq<Narrow>)
    requires
        state.sens.raw > 0,
    ensures
        seed_spec(state, observed) matches Ok(seeded) ==> forall|k: int|
            0 <= k <= steps.len() ==> (#[trigger] narrow_all(seeded, steps.take(k))).bracketed(),
{
    lemma_seed_is_bracketed(state, observed);
    if let Ok(seeded) = seed_spec(state, observed) {
        lemma_bracket_holds_throughout(seeded, steps);
    }
}

impl YawStuff {
    /// The estimate lies within its limits.
    pub open spec fn bracketed(self) -> bool {
        self.lower_limit.raw <= self.yaw.raw <= self.upper_limit.raw
    }

    /// The calibration before anything was measured: sensitivity 1, no counts,
    /// and an estimate of 0 between the limits 0 and 1000.
    pub fn new() -> (r: YawStuff)
        ensures
            r == (YawStuff {
                sens: Fixed { raw: SCALE },
                counts: 0,
                inc: Fixed { raw: 0 },
                yaw: Fixed { raw: 0 },
                lower_limit: Fixed { raw: 0 },
                upper_limit: Fixed { raw: 1_000_000_000_000 },
            }),
            r.bracketed(),
    {
        YawStuff {
            sens: Fixed { raw: SCALE },
            counts: 0,
            inc: Fixed { raw: 0 },
            yaw: Fixed { raw: 0 },
            lower_limit: Fixed { raw: 0 },
            upper_limit: Fixed { raw: 1_000_000_000_000 },
        }
    }

    /// Sets the estimate to `inc / sens` for the given sensitivity, counts
    /// and degrees per count, with limits a tenth below and above it.
    /// Nothing changes where that has no value.
    pub fn set_bracket(&mut self, sens: Fixed, counts: i32, inc: Fixed) -> (r: Result<
        (),
        MathError,
    >)
        ensures
            match bracket_spec(sens, counts, inc) {
                Ok(next) => r is Ok && *final(self) == next,
                Err(e) => r == Err::<(), MathError>(e) && *final(self) == *old(self),
            },
            r is Ok && sens.raw > 0 && inc.raw >= 0 ==> final(self).bracketed(),
    {
        if sens.raw == 0 {
            return Err(MathError::DivisionByZero);
        }
        proof {
            lemma_product_bound(inc.raw as int, SCALE as int, 0x8000_0000_0000_0000, SCALE as int);
        }
        let scaled: i128 = (inc.raw as i128) * (SCALE as i128);
        let yaw = match fixed_from(round_div_exec(scaled, sens.raw as i128)) {
            Err(e) => { return Err(e); },
            Ok(yaw) => yaw,
        };
        let lower_limit = match fixed_from(round_div_exec((yaw.raw as i128) * 9, 10)) {
            Err(e) => { return Err(e); },
            Ok(limit) => limit,
        };
        let upper_limit = match fixed_from(round_div_exec((yaw.raw as i128) * 11, 10)) {
            Err(e) => { return Err(e); },
            Ok(limit) => limit,
        };
        proof {
            if sens.raw > 0 && inc.raw >= 0 {
                lemma_bracket_spec_is_bracketed(sens, counts, inc);
            }
        }
        *self = YawStuff { sens, counts, inc, yaw, lower_limit, upper_limit };
        Ok(())
    }

    /// Starts the calibration from a captured full turn of `observed` counts:
    /// one count is `360 / observed` degrees, the estimate is that over the
    /// sensitivity, the limits lie a tenth below and above. Nothing changes
    /// where that has no value.
    pub fn seed(&mut self, observed: i32) -> (r: Result<(), MathError>)
        ensures
            match seed_spec(*old(self), observed) {
                Ok(next) => r is Ok && *final(self) == next,
                Err(e) => r == Err::<(), MathError>(e) && *final(self) == *old(self),
            },
            r is Ok && old(self).sens.raw > 0 ==> final(self).bracketed(),
    {
        if observed <= 0 {
            return Err(MathError::DivisionByZero);
        }
        match fixed_from(round_div_exec(FULL_CIRCLE, observed as i128)) {
            Err(e) => Err(e),
            Ok(inc) => {
                let sens = self.sens;
                self.set_bracket(sens, observed, inc)
            },
        }
    }

    /// Takes one narrowing step: the estimate becomes the upper limit (down)
    /// or the lower limit (up) and then the middle of the new bracket, and
    /// the counts of a full turn follow it. Nothing changes where that has
    /// no value.
    pub fn narrow(&mut self, step: Narrow) -> (r: Result<(), MathError>)
        ensures
            match narrow_spec(*old(self), step) {
                Ok(next) => r is Ok && *final(self) == next,
                Err(e) => r == Err::<(), MathError>(e) && *final(self) == *old(self),
            },
            old(self).bracketed() ==> final(self).bracketed(),
    {
        proof {
            if self.bracketed() {
                lemma_narrow_keeps_bracket(*self, step);
            }
        }
        let lower_limit = match step {
            Narrow::Up => self.yaw,
            Narrow::Down => self.lower_limit,
        };
        let upper_limit = match step {
            Narrow::Down => self.yaw,
            Narrow::Up => self.upper_limit,
        };
        let yaw = match fixed_from(
            round_div_exec((lower_limit.raw as i128) + (upper_limit.raw as i128), 2),
        ) {
            Err(e) => { return Err(e); },
            Ok(yaw) => yaw,
        };
        proof {
            lemma_product_bound(
                self.sens.raw as int,
                yaw.raw as int,
                0x8000_0000_0000_0000,
                0x8000_0000_0000_0000,
            );
        }
        let inc = match fixed_from(
            round_div_exec((self.sens.raw as i128) * (yaw.raw as i128), SCALE as i128),
        ) {
            Err(e) => { return Err(e); },
            Ok(inc) => inc,
        };
        if inc.raw == 0 {
            return Err(MathError::DivisionByZero);
        }
        match count_from(round_div_exec(FULL_CIRCLE, inc.raw as i128)) {
            Err(e) => Err(e),
            Ok(counts) => {
                *self = YawStuff { sens: self.sens, counts, inc, yaw, lower_limit, upper_limit };
                Ok(())
            },
        }
    }
}

} // verus!
