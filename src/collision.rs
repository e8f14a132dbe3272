use vstd::prelude::*;
use crate::model::{Ball, Paddle, Scores, Side, Viewport, CATCH_HALF_HEIGHT, SUBUNITS_PER_UNIT};

verus! {

/// What happened to the ball on the horizontal axis in one frame.
#[derive(Clone, Copy, Debug, PartialEq, Eq, Structural)]
pub enum Horizontal {
    /// The ball is between the two boundaries.
    NoEvent,
    /// The paddle on this side returned the ball.
    Catch(Side),
    /// The ball got past a paddle; this side wins the point.
    Score(Side),
}

/// What the collision stage found in one frame.
#[derive(Clone, Copy, Debug, PartialEq, Eq, Structural)]
pub struct Collision {
    /// The ball touched the top or bottom boundary and bounced.
    pub wall: bool,
    pub horizontal: Horizontal,
}

/// The ball at height `ball_y` is inside the open catch window of a paddle
/// at offset `paddle_y`.
pub open spec fn in_catch_window(paddle_y: int, ball_y: int) -> bool {
    paddle_y - CATCH_HALF_HEIGHT * SUBUNITS_PER_UNIT < ball_y
        < paddle_y + CATCH_HALF_HEIGHT * SUBUNITS_PER_UNIT
}

/// The ball is at or beyond the top or bottom boundary.
pub open spec fn hits_wall(ball: Ball, view: Viewport) -> bool {
    ball.y >= view.half_height_spec() || ball.y <= -view.half_height_spec()
}

/// The horizontal outcome for a ball: past the right boundary the right
/// paddle catches it or the left side scores; past the left boundary the
/// mirror image; the right boundary is tested first.
pub open spec fn horizontal_outcome(ball: Ball, left: Paddle, right: Paddle, view: Viewport) -> Horizontal {
    let w = view.half_width_spec();
    if ball.x >= w {
        if in_catch_window(right.y as int, ball.y as int) {
            Horizontal::Catch(Side::Right)
        } else {
            Horizontal::Score(Side::Left)
        }
    } else if ball.x <= -w {
        if in_catch_window(left.y as int, ball.y as int) {
            Horizontal::Catch(Side::Left)
        } else {
            Horizontal::Score(Side::Right)
        }
    } else {
        Horizontal::NoEvent
    }
}

/// The counters can take the change that `h` brings.
pub open spec fn outcome_fits(h: Horizontal, scores: Scores, rally: u32) -> bool {
    match h {
        Horizontal::NoEvent => true,
        Horizontal::Catch(_) => rally < u32::MAX,
        Horizontal::Score(s) => scores.of(s) < u64::MAX,
    }
}

/// The scores after outcome `h`.
pub open spec fn scores_after(scores: Scores, h: Horizontal) -> Scores {
    match h {
        Horizontal::Score(Side::Left) => Scores { left: (scores.left + 1) as u64, ..scores },
        Horizontal::Score(Side::Right) => Scores { right: (scores.right + 1) as u64, ..scores },
        _ => scores,
    }
}

/// The rally counter after outcome `h`.
pub open spec fn rally_after(rally: u32, h: Horizontal) -> int {
    match h {
        Horizontal::NoEvent => rally as int,
        Horizontal::Catch(_) => rally + 1,
        Horizontal::Score(_) => 0,
    }
}

/// The ball after a wall bounce (when `wall`) and outcome `h`.
pub open spec fn ball_after(ball: Ball, wall: bool, h: Horizontal) -> Ball {
    let vy = if wall { -ball.vy } else { ball.vy as int };
    match h {
        Horizontal::NoEvent => Ball { vy: vy as i32, ..ball },
        Horizontal::Catch(_) => Ball { vx: -ball.vx as i32, vy: vy as i32, ..ball },
        Horizontal::Score(_) => Ball { x: 0, y: 0, vy: vy as i32, ..ball },
    }
}

/// Whether a paddle at offset `paddle_y` catches a ball at height `ball_y`.
pub fn catches(paddle_y: i64, ball_y: i64) -> (r: bool)
    ensures
        r == in_catch_window(paddle_y as int, ball_y as int),
{
    let window: i128 = (CATCH_HALF_HEIGHT * SUBUNITS_PER_UNIT) as i128;
    paddle_y as i128 - window < ball_y as i128 && (ball_y as i128) < paddle_y as i128 + window
}

/// Resolves the ball against the playfield boundaries and the paddles:
/// bounces off the top and bottom, then on the right (or else the left)
/// boundary either a catch, which returns the ball and lengthens the rally,
/// or a point for the other side, which recentres the ball and ends the rally.
pub fn ball_collision(
    ball: &mut Ball,
    left: &Paddle,
    right: &Paddle,
    scores: &mut Scores,
    rally: &mut u32,
    view: &Viewport,
) -> (r: Collision)
    requires
        old(ball).wf(),
        view.wf(),
        outcome_fits(horizontal_outcome(*old(ball), *left, *right, *view), *old(scores), *old(rally)),
    ensures
        r.wall == hits_wall(*old(ball), *view),
        r.horizontal == horizontal_outcome(*old(ball), *left, *right, *view),
        *final(ball) == ball_after(*old(ball), r.wall, r.horizontal),
        *final(scores) == scores_after(*old(scores), r.horizontal),
        *final(rally) as int == rally_after(*old(rally), r.horizontal),
        final(ball).wf(),
{
    let h = view.half_height();
    let w = view.half_width();
    let wall = ball.y >= h || ball.y <= -h;
    if wall {
        ball.vy = -ball.vy;
    }
    if ball.x >= w {
        if catches(right.y, ball.y) {
            ball.vx = -ball.vx;
            *rally = *rally + 1;
            return Collision { wall, horizontal: Horizontal::Catch(Side::Right) };
        }
        scores.left = scores.left + 1;
        ball.x = 0;
        ball.y = 0;
        *rally = 0;
        Collision { wall, horizontal: Horizontal::Score(Side::Left) }
    } else if ball.x <= -w {
        if catches(left.y, ball.y) {
            ball.vx = -ball.vx;
            *rally = *rally + 1;
            return Collision { wall, horizontal: Horizontal::Catch(Side::Left) };
        }
        scores.right = scores.right + 1;
        ball.x = 0;
        ball.y = 0;
        *rally = 0;
        Collision { wall, horizontal: Horizontal::Score(Side::Right) }
    } else {
        Collision { wall, horizontal: Horizontal::NoEvent }
    }
}

} // verus!
