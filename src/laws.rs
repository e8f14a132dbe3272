//! Properties that hold of the simulation for all inputs.
use vstd::prelude::*;
use crate::collision::{
    ball_after, hits_wall, horizontal_outcome, in_catch_window, outcome_fits, rally_after,
    scores_after, Collision, Horizontal,
};
use crate::frame::{sounds_spec, Sound};
use crate::control::{autopilot_offset, clamp_spec};
use crate::difficulty::speed_for;
use crate::model::{
    Ball, Paddle, Scores, Side, Viewport, CATCH_HALF_HEIGHT, SCORE_CAP, SPEED_DENOM,
    SUBUNITS_PER_UNIT,
};
use crate::motion::{lemma_displacement, motion_fits, moved};

verus! {

/// One frame of motion adds exactly the velocity times the speed factor
/// (`speed / SPEED_DENOM`, in units, so `SUBUNITS_PER_UNIT` times that in
/// sub-units) to each coordinate and changes nothing else.
pub proof fn lemma_motion_exact(ball: Ball)
    requires
        motion_fits(ball),
    ensures
        moved(ball).x * SPEED_DENOM == ball.x * SPEED_DENOM + ball.vx * ball.speed * SUBUNITS_PER_UNIT,
        moved(ball).y * SPEED_DENOM == ball.y * SPEED_DENOM + ball.vy * ball.speed * SUBUNITS_PER_UNIT,
        moved(ball).vx == ball.vx && moved(ball).vy == ball.vy && moved(ball).speed == ball.speed,
{
    lemma_displacement(ball.vx as int, ball.speed as int);
    lemma_displacement(ball.vy as int, ball.speed as int);
}

/// In one collision stage exactly one of "no event", "catch" and "score"
/// happens on the horizontal axis, decided by where the ball is: between
/// the boundaries nothing changes; a catch returns the ball and lengthens
/// the rally without touching the scores; a point recentres the ball, ends
/// the rally and adds one to the total. A wall bounce negates the vertical
/// velocity whichever of them happens, and its sound comes before theirs.
pub proof fn lemma_one_horizontal_outcome(
    ball: Ball,
    left: Paddle,
    right: Paddle,
    scores: Scores,
    rally: u32,
    view: Viewport,
)
    requires
        ball.wf(),
        outcome_fits(horizontal_outcome(ball, left, right, view), scores, rally),
    ensures
        ({
            let h = horizontal_outcome(ball, left, right, view);
            let wall = hits_wall(ball, view);
            let b = ball_after(ball, wall, h);
            let sc = scores_after(scores, h);
            let r = rally_after(rally, h);
            let w = view.half_width_spec();
            let none = h is NoEvent;
            let catch = h is Catch;
            let score = h is Score;
            &&& (none && !catch && !score) || (!none && catch && !score) || (!none && !catch && score)
            &&& none <==> (-w < ball.x && ball.x < w)
            &&& none ==> b.x == ball.x && b.y == ball.y && b.vx == ball.vx && sc == scores && r == rally
            &&& catch ==> b.x == ball.x && b.y == ball.y && b.vx == -ball.vx && sc == scores && r == rally + 1
            &&& score ==> b.x == 0 && b.y == 0 && b.vx == ball.vx && sc.total() == scores.total() + 1 && r == 0
            &&& b.vy == (if wall { -ball.vy } else { ball.vy as int })
            &&& b.speed == ball.speed
            &&& sounds_spec(Collision { wall, horizontal: h }) == (if wall { seq![Sound::Wall] } else { Seq::empty() })
                + (if catch { seq![Sound::Catch] } else if score { seq![Sound::Score] } else { Seq::empty() })
        }),
{
    let h = horizontal_outcome(ball, left, right, view);
    let wall = hits_wall(ball, view);
    let pre = if wall { seq![Sound::Wall] } else { Seq::<Sound>::empty() };
    assert(pre + Seq::<Sound>::empty() =~= pre);
    assert(pre + seq![Sound::Catch] =~= pre.push(Sound::Catch));
    assert(pre + seq![Sound::Score] =~= pre.push(Sound::Score));
}

/// Past the right boundary the right paddle catches the ball exactly when
/// the ball is strictly inside its window; otherwise the left side scores.
/// Past the left boundary (and not the right) the same holds mirrored.
pub proof fn lemma_catch_window(ball: Ball, left: Paddle, right: Paddle, view: Viewport)
    ensures
        ball.x >= view.half_width_spec() ==> ({
            let h = horizontal_outcome(ball, left, right, view);
            &&& h == Horizontal::Catch(Side::Right) <==> (right.y - CATCH_HALF_HEIGHT * SUBUNITS_PER_UNIT < ball.y
                && ball.y < right.y + CATCH_HALF_HEIGHT * SUBUNITS_PER_UNIT)
            &&& h != Horizontal::Catch(Side::Right) ==> h == Horizontal::Score(Side::Left)
        }),
        ball.x < view.half_width_spec() && ball.x <= -view.half_width_spec() ==> ({
            let h = horizontal_outcome(ball, left, right, view);
            &&& h == Horizontal::Catch(Side::Left) <==> (left.y - CATCH_HALF_HEIGHT * SUBUNITS_PER_UNIT < ball.y
                && ball.y < left.y + CATCH_HALF_HEIGHT * SUBUNITS_PER_UNIT)
            &&& h != Horizontal::Catch(Side::Left) ==> h == Horizontal::Score(Side::Right)
        }),
{
}

/// A ball exactly on the edge of a paddle's catch window is missed: the
/// window is open at both ends.
pub proof fn lemma_catch_window_is_open(ball: Ball, left: Paddle, right: Paddle, view: Viewport, side: Side)
    requires
        side == Side::Right ==> ball.x >= view.half_width_spec(),
        side == Side::Left ==> ball.x < view.half_width_spec() && ball.x <= -view.half_width_spec(),
        ({
            let p = if side == Side::Right { right.y } else { left.y };
            ball.y == p - CATCH_HALF_HEIGHT * SUBUNITS_PER_UNIT
                || ball.y == p + CATCH_HALF_HEIGHT * SUBUNITS_PER_UNIT
        }),
    ensures
        horizontal_outcome(ball, left, right, view) == Horizontal::Score(side.opposite_spec()),
{
}

/// When the ball gets past the paddle on `loser`'s side, the ball ends at
/// the centre with its horizontal direction kept, the rally is over, the
/// other side's tally is one higher and the loser's is unchanged.
pub proof fn lemma_score_resets(
    ball: Ball,
    left: Paddle,
    right: Paddle,
    scores: Scores,
    rally: u32,
    view: Viewport,
    loser: Side,
)
    requires
        ball.wf(),
        loser == Side::Right ==> ball.x >= view.half_width_spec() && !in_catch_window(right.y as int, ball.y as int),
        loser == Side::Left ==> ball.x < view.half_width_spec() && ball.x <= -view.half_width_spec()
            && !in_catch_window(left.y as int, ball.y as int),
        scores.of(loser.opposite_spec()) < u64::MAX,
    ensures
        ({
            let h = horizontal_outcome(ball, left, right, view);
            let b = ball_after(ball, hits_wall(ball, view), h);
            let sc = scores_after(scores, h);
            let winner = loser.opposite_spec();
            &&& h == Horizontal::Score(winner)
            &&& b.x == 0 && b.y == 0
            &&& b.vx == ball.vx
            &&& rally_after(rally, h) == 0
            &&& sc.of(winner) == scores.of(winner) + 1
            &&& sc.of(loser) == scores.of(loser)
        }),
{
}

/// The speed factor `speed / SPEED_DENOM` is `1 + min(total, 20) / 5 + rally / 3`:
/// it depends on the total score and the rally alone, is at least one, and stops growing with the score once the total reaches the cap.
pub proof fn lemma_speed_formula(total: int, rally: int)
    requires
        total >= 0,
        rally >= 0,
    ensures
        speed_for(total, rally) >= SPEED_DENOM,
        total >= SCORE_CAP ==> speed_for(total, rally) == speed_for(SCORE_CAP as int, rally),
        speed_for(total, rally) == SPEED_DENOM
            + (SPEED_DENOM / 5) * (if total < SCORE_CAP { total } else { SCORE_CAP as int })
            + (SPEED_DENOM / 3) * rally,
{
}

/// Whatever offset a paddle had before clamping, afterwards it lies in the
/// on-screen band, for every viewport at least one paddle high.
pub proof fn lemma_clamp_in_band(y: int, view: Viewport)
    requires
        view.wf(),
        view.height >= 2 * CATCH_HALF_HEIGHT,
    ensures
        -view.paddle_top_spec() <= clamp_spec(y, -view.paddle_top_spec(), view.paddle_top_spec()) <= view.paddle_top_spec(),
{
}

/// The auto-pilot moves a paddle by at most one step per frame, however far
/// away the predicted crossing is.
pub proof fn lemma_autopilot_one_step(ball: Ball, paddle_y: int, side: Side, view: Viewport)
    requires
        view.wf(),
    ensures
        paddle_y - view.step_spec() <= autopilot_offset(ball, paddle_y, side, view) <= paddle_y + view.step_spec(),
        ball.vx == 0 ==> autopilot_offset(ball, paddle_y, side, view) == paddle_y,
{
}

} // verus!
