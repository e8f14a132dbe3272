use vstd::prelude::*;
use crate::model::{Ball, Scores, MAX_SPEED, SCORE_CAP, SPEED_DENOM};

verus! {

/// The speed numerator for a total score and a rally length:
/// `SPEED_DENOM * (1 + min(total, 20) / 5 + rally / 3)`.
pub open spec fn speed_for(total: int, rally: int) -> int {
    let capped = if total < SCORE_CAP as int { total } else { SCORE_CAP as int };
    SPEED_DENOM + 3 * capped + 5 * rally
}

/// The total score with its contribution capped, computed without overflow.
pub fn capped_total(scores: &Scores) -> (r: u64)
    ensures
        r as int == if scores.total() < SCORE_CAP as int { scores.total() } else { SCORE_CAP as int },
{
    if scores.left >= SCORE_CAP || scores.right >= SCORE_CAP {
        SCORE_CAP
    } else if scores.left + scores.right >= SCORE_CAP {
        SCORE_CAP
    } else {
        scores.left + scores.right
    }
}

/// The speed numerator for the given scores and rally counter.
pub fn speed_factor(scores: &Scores, rally: u32) -> (r: u64)
    ensures
        r as int == speed_for(scores.total(), rally as int),
        SPEED_DENOM <= r <= MAX_SPEED,
{
    let capped = capped_total(scores);
    SPEED_DENOM + 3 * capped + 5 * (rally as u64)
}

/// Recomputes the ball's speed factor from the scores and the rally counter,
/// whatever it was before.
pub fn ball_speed_up(ball: &mut Ball, scores: &Scores, rally: u32)
    requires
        old(ball).wf(),
    ensures
        final(ball).speed as int == speed_for(scores.total(), rally as int),
        final(ball).x == old(ball).x,
        final(ball).y == old(ball).y,
        final(ball).vx == old(ball).vx,
        final(ball).vy == old(ball).vy,
        final(ball).wf(),
{
    ball.speed = speed_factor(scores, rally);
}

} // verus!
