//! Synthetic pointer motion: a turn is replayed as a run of small relative
//! moves, so that the receiving game samples each of them.

use crate::fixed::{trunc_div, trunc_div_exec, Fixed, SCALE};
use vstd::arithmetic::div_mod::lemma_fundamental_div_mod;
use vstd::prelude::*;

verus! {

/// Milliseconds to wait after each move of a replayed turn.
pub const PACING_MILLIS: u64 = 10;

/// How many moves of at most `step` counts make up `total` counts.
pub open spec fn chunk_count(total: int, step: int) -> int
    recommends
        total > 0,
        step > 0,
{
    (total + step - 1) / step
}

/// The size of move number `i`: a full step, or what is left.
pub open spec fn chunk_at(total: int, step: int, i: int) -> int {
    if total - i * step < step {
        total - i * step
    } else {
        step
    }
}

/// The moves that replay `x` counts in steps of `x / steps`, each to the
/// right (positive) or to the left (negative). Nothing moves unless both `x`
/// and `steps` are positive.
pub open spec fn moves_spec(x: i32, steps: i32, right: bool) -> Seq<i32> {
    if x <= 0 || steps <= 0 {
        Seq::empty()
    } else {
        Seq::new(
            chunk_count(x as int, x / steps) as nat,
            |i: int|
                if right {
                    chunk_at(x as int, x / steps, i) as i32
                } else {
                    (-chunk_at(x as int, x / steps, i)) as i32
                },
        )
    }
}

/// How far a move goes in the direction asked for.
pub open spec fn distance(delta: i32, right: bool) -> int {
    if right {
        delta as int
    } else {
        -delta
    }
}

/// The sum of a run of moves.
pub open spec fn total_of(moves: Seq<i32>) -> int
    decreases moves.len(),
{
    if moves.len() == 0 {
        0
    } else {
        total_of(moves.drop_last()) + moves.last()
    }
}

/// The last move ends where the total is reached, and no earlier move does.
pub proof fn lemma_chunk_count(total: int, step: int)
    requires
        total > 0,
        step > 0,
    ensures
        chunk_count(total, step) >= 1,
        (chunk_count(total, step) - 1) * step < total <= chunk_count(total, step) * step,
{
    let n = chunk_count(total, step);
    let r = (total + step - 1) % step;
    lemma_fundamental_div_mod(total + step - 1, step);
    assert(n >= 1 && (n - 1) * step < total <= n * step) by (nonlinear_arith)
        requires
            total + step - 1 == step * n + r,
            0 <= r < step,
            total > 0,
            step > 0,
    ;
}

/// Where move number `k` falls among the moves of a turn.
proof fn lemma_chunk_position(total: int, step: int, k: int)
    requires
        total > 0,
        step > 0,
        0 <= k,
        total - k * step > 0,
    ensures
        k < chunk_count(total, step),
        total - k * step > step ==> k + 1 < chunk_count(total, step),
        total - k * step <= step ==> k + 1 == chunk_count(total, step),
{
    let n = chunk_count(total, step);
    lemma_chunk_count(total, step);
    assert(k < n) by (nonlinear_arith)
        requires
            total <= n * step,
            total - k * step > 0,
            step > 0,
    ;
    if total - k * step > step {
        assert(k + 1 < n) by (nonlinear_arith)
            requires
                total <= n * step,
                total - k * step > step,
                step > 0,
        ;
    } else {
        assert(k + 1 >= n) by (nonlinear_arith)
            requires
                (n - 1) * step < total,
                total - k * step <= step,
                step > 0,
        ;
    }
}

/// Splits a turn of `x` counts into moves of `x / steps` counts, the last
/// one taking what is left, to the right or to the left. The result lists the
/// horizontal part of each relative move, in the order to emit them, each to
/// be followed by a pause of [`PACING_MILLIS`].
///
/// A turn of fewer counts than steps has a step of zero and never ends: it is
/// not to be asked for.
pub fn move_mouse_by(x: i32, steps: i32, right: bool) -> (moves: Vec<i32>)
    requires
        splits(x, steps),
    ensures
        moves@ == moves_spec(x, steps, right),
        x <= 0 || steps <= 0 ==> moves@.len() == 0,
        x > 0 && steps > 0 ==> moves@.len() == chunk_count(x as int, x / steps),
        forall|i: int|
            0 <= i < moves@.len() ==> 0 < distance(#[trigger] moves@[i], right) <= x / steps,
        total_of(moves@) == (if x <= 0 || steps <= 0 {
            0
        } else if right {
            x as int
        } else {
            -x
        }),
{
    let mut moves: Vec<i32> = Vec::new();
    if x <= 0 || steps <= 0 {
        assert(moves@ =~= moves_spec(x, steps, right));
        return moves;
    }
    let step_count: i32 = x / steps;
    assert(step_count >= 1) by (nonlinear_arith)
        requires
            step_count == x / steps,
            0 < steps <= x,
    ;
    let mut remaining: i32 = x;
    let ghost target = moves_spec(x, steps, right);
    let ghost n = chunk_count(x as int, step_count as int);
    proof {
        lemma_chunk_count(x as int, step_count as int);
        assert(0 * step_count == 0);
    }
    while remaining > 0
        invariant
            x > 0,
            steps > 0,
            step_count >= 1,
            step_count == x / steps,
            target == moves_spec(x, steps, right),
            n == chunk_count(x as int, step_count as int),
            target.len() == n,
            (n - 1) * step_count < x,
            0 <= moves@.len() <= n,
            0 <= remaining <= x,
            moves@.len() < n ==> remaining == x - moves@.len() * step_count,
            moves@.len() == n ==> remaining == 0,
            forall|i: int| 0 <= i < moves@.len() ==> moves@[i] == target[i],
            forall|i: int|
                0 <= i < moves@.len() ==> 0 < distance(#[trigger] moves@[i], right) <= step_count,
            total_of(moves@) == (if right {
                x - remaining
            } else {
                remaining - x
            }),
        decreases remaining,
    {
        let ghost k = moves@.len() as int;
        let ghost before = moves@;
        let move_by: i32 = if remaining > step_count {
            step_count
        } else {
            remaining
        };
        proof {
            lemma_chunk_position(x as int, step_count as int, k);
            assert((k + 1) * step_count == k * step_count + step_count) by (nonlinear_arith);
            assert(move_by == chunk_at(x as int, step_count as int, k));
        }
        if right {
            moves.push(move_by);
        } else {
            moves.push(-move_by);
        }
        remaining = remaining - move_by;
        proof {
            assert(moves@.drop_last() =~= before);
        }
    }
    proof {
        let k = moves@.len() as int;
        if k < n {
            assert(false) by (nonlinear_arith)
                requires
                    (n - 1) * step_count < x,
                    x == k * step_count,
                    k < n,
                    step_count >= 1,
            ;
        }
        assert(moves@ =~= target);
    }
    moves
}

/// The turn can be split: it moves nothing, or it has at least one count
/// for each step.
pub open spec fn splits(x: i32, steps: i32) -> bool {
    x <= 0 || steps <= 0 || steps <= x
}

/// The moves of [`move_mouse_by`] for a turn that can be split, and nothing
/// for one that cannot.
pub fn plan_turn(x: i32, steps: i32, right: bool) -> (plan: Option<Vec<i32>>)
    ensures
        match plan {
            Some(moves) => splits(x, steps) && moves@ == moves_spec(x, steps, right),
            None => !splits(x, steps),
        },
{
    if x <= 0 || steps <= 0 || steps <= x {
        Some(move_mouse_by(x, steps, right))
    } else {
        None
    }
}

/// How many steps a turn is replayed in at the given turn speed:
/// `50 / turn_speed` without its fraction, and the nearest `i32` where that
/// does not fit. A turn speed of zero gives the largest number of steps.
pub open spec fn turn_steps_spec(turn_speed: Fixed) -> int {
    if turn_speed.raw == 0 {
        i32::MAX as int
    } else {
        let steps = trunc_div(50 * SCALE, turn_speed.raw as int);
        if steps > i32::MAX {
            i32::MAX as int
        } else if steps < i32::MIN {
            i32::MIN as int
        } else {
            steps
        }
    }
}

/// How many steps a turn is replayed in at the given turn speed.
pub fn turn_steps(turn_speed: Fixed) -> (steps: i32)
    ensures
        steps == turn_steps_spec(turn_speed),
{
    if turn_speed.raw == 0 {
        return i32::MAX;
    }
    let steps: i128 = trunc_div_exec(50_000_000_000, turn_speed.raw as i128);
    if steps > i32::MAX as i128 {
        i32::MAX
    } else if steps < i32::MIN as i128 {
        i32::MIN
    } else {
        steps as i32
    }
}

} // verus!
