use vstd::prelude::*;
use crate::model::{Ball, Paddle, Side, Viewport};

verus! {

/// The state of one side's controls in a frame.
#[derive(Clone, Copy, Debug, PartialEq, Eq, Structural)]
pub struct PaddleInput {
    /// "Move up" is held.
    pub up: bool,
    /// "Move down" is held.
    pub down: bool,
    /// "Toggle auto-pilot" was pressed in this frame.
    pub toggle: bool,
}

/// `y` limited to `[lo, hi]`: first capped at `hi`, then raised to `lo`.
pub open spec fn clamp_spec(y: int, lo: int, hi: int) -> int {
    let capped = if y > hi { hi } else { y };
    if capped < lo { lo } else { capped }
}

/// A paddle at offset `y` can move one step either way within its machine type.
pub open spec fn step_fits(y: int, view: Viewport) -> bool {
    i64::MIN + view.step_spec() <= y <= i64::MAX - view.step_spec()
}

/// The numerator of the predicted gap: the ball, extrapolated along a
/// straight line to the horizontal plane `plane`, crosses it at height
/// `paddle_y + prediction_gap(..) / ball.vx`.
pub open spec fn prediction_gap(ball: Ball, paddle_y: int, plane: int) -> int {
    (ball.y - paddle_y) * ball.vx + ball.vy * (plane - ball.x)
}

/// The predicted crossing lies above the paddle.
pub open spec fn target_above(ball: Ball, paddle_y: int, plane: int) -> bool {
    let g = prediction_gap(ball, paddle_y, plane);
    (ball.vx > 0 && g > 0) || (ball.vx < 0 && g < 0)
}

/// The predicted crossing lies below the paddle.
pub open spec fn target_below(ball: Ball, paddle_y: int, plane: int) -> bool {
    let g = prediction_gap(ball, paddle_y, plane);
    (ball.vx > 0 && g < 0) || (ball.vx < 0 && g > 0)
}

/// The auto-pilot's new offset for a paddle at `paddle_y` on `side`: one step
/// toward the predicted crossing, or none when the ball does not move
/// horizontally or the prediction is level with the paddle.
pub open spec fn autopilot_offset(ball: Ball, paddle_y: int, side: Side, view: Viewport) -> int {
    let plane = view.paddle_plane_spec(side);
    if target_above(ball, paddle_y, plane) {
        paddle_y + view.step_spec()
    } else if target_below(ball, paddle_y, plane) {
        paddle_y - view.step_spec()
    } else {
        paddle_y
    }
}

/// A manually steered paddle's new offset before clamping.
pub open spec fn manual_offset(paddle_y: int, input: PaddleInput, view: Viewport) -> int {
    let up = if input.up { view.step_spec() } else { 0 };
    let down = if input.down { view.step_spec() } else { 0 };
    paddle_y + up - down
}

/// The paddle after the auto-pilot: one step toward the prediction when its
/// flag is on, unchanged when it is off.
pub open spec fn autopilot_paddle(paddle: Paddle, ball: Ball, view: Viewport) -> Paddle {
    if paddle.auto {
        Paddle { y: autopilot_offset(ball, paddle.y as int, paddle.side, view) as i64, ..paddle }
    } else {
        paddle
    }
}

/// The paddle after the manual controls: held keys move a paddle whose flag
/// is off, the toggle flips the flag, and the offset is clamped.
pub open spec fn paddle_after(paddle: Paddle, input: PaddleInput, view: Viewport) -> Paddle {
    let moved = if paddle.auto {
        paddle.y as int
    } else {
        manual_offset(paddle.y as int, input, view)
    };
    Paddle {
        side: paddle.side,
        y: clamp_spec(moved, -view.paddle_top_spec(), view.paddle_top_spec()) as i64,
        auto: if input.toggle { !paddle.auto } else { paddle.auto },
    }
}

/// Limits a paddle offset to the band in which the paddle stays on screen.
pub fn clamp_offset(y: i64, view: &Viewport) -> (r: i64)
    requires
        view.wf(),
    ensures
        r == clamp_spec(y as int, -view.paddle_top_spec(), view.paddle_top_spec()),
        view.paddle_top_spec() >= 0 ==> -view.paddle_top_spec() <= r <= view.paddle_top_spec(),
{
    let top = view.paddle_top();
    let capped = if y > top { top } else { y };
    if capped < -top { -top } else { capped }
}

/// Moves a paddle on auto-pilot one step toward where the ball, extrapolated
/// in a straight line, will cross the paddle's plane. A ball without
/// horizontal velocity, or a paddle whose flag is off, stays where it is.
pub fn auto_move_paddle(paddle: &mut Paddle, ball: &Ball, view: &Viewport)
    requires
        view.wf(),
        ball.wf(),
        old(paddle).auto ==> step_fits(old(paddle).y as int, *view),
    ensures
        *final(paddle) == autopilot_paddle(*old(paddle), *ball, *view),
        old(paddle).auto ==> final(paddle).y as int == autopilot_offset(*ball, old(paddle).y as int, old(paddle).side, *view),
        !old(paddle).auto ==> final(paddle).y == old(paddle).y,
        final(paddle).side == old(paddle).side,
        final(paddle).auto == old(paddle).auto,
        old(paddle).y - view.step_spec() <= final(paddle).y <= old(paddle).y + view.step_spec(),
{
    if !paddle.auto {
        return;
    }
    let plane = view.paddle_plane(paddle.side);
    let step = view.step();
    proof {
        lemma_gap_bounds(*ball, paddle.y as int, plane as int);
    }
    let gap: i128 = (ball.y as i128 - paddle.y as i128) * ball.vx as i128
        + ball.vy as i128 * (plane as i128 - ball.x as i128);
    let above = (ball.vx > 0 && gap > 0) || (ball.vx < 0 && gap < 0);
    let below = (ball.vx > 0 && gap < 0) || (ball.vx < 0 && gap > 0);
    if above {
        paddle.y = paddle.y + step;
    } else if below {
        paddle.y = paddle.y - step;
    }
}

proof fn lemma_gap_bounds(ball: Ball, paddle_y: int, plane: int)
    requires
        ball.wf(),
        i64::MIN <= paddle_y <= i64::MAX,
        i64::MIN <= plane <= i64::MAX,
    ensures
        -0x1_0000_0000_0000_0000_0000_0000 <= (ball.y - paddle_y) * ball.vx <= 0x1_0000_0000_0000_0000_0000_0000,
        -0x1_0000_0000_0000_0000_0000_0000 <= ball.vy * (plane - ball.x) <= 0x1_0000_0000_0000_0000_0000_0000,
{
    let d1 = ball.y - paddle_y;
    let d2 = plane - ball.x;
    let vx = ball.vx as int;
    let vy = ball.vy as int;
    assert(-0x1_0000_0000_0000_0000_0000_0000 <= d1 * vx <= 0x1_0000_0000_0000_0000_0000_0000) by (nonlinear_arith)
        requires
            -0x1_0000_0000_0000_0000 <= d1 <= 0x1_0000_0000_0000_0000,
            -0x8000_0000 <= vx <= 0x8000_0000,
    ;
    assert(-0x1_0000_0000_0000_0000_0000_0000 <= vy * d2 <= 0x1_0000_0000_0000_0000_0000_0000) by (nonlinear_arith)
        requires
            -0x1_0000_0000_0000_0000 <= d2 <= 0x1_0000_0000_0000_0000,
            -0x8000_0000 <= vy <= 0x8000_0000,
    ;
}

/// Applies a manual move: one step up per held "up", one down per held "down".
pub fn manual_move_paddle(paddle: &mut Paddle, input: PaddleInput, view: &Viewport)
    requires
        view.wf(),
        step_fits(old(paddle).y as int, *view),
    ensures
        final(paddle).y as int == manual_offset(old(paddle).y as int, input, *view),
        final(paddle).side == old(paddle).side,
        final(paddle).auto == old(paddle).auto,
{
    let step = view.step();
    if input.up {
        paddle.y = paddle.y + step;
    }
    if input.down {
        paddle.y = paddle.y - step;
    }
}

/// The manual part of the paddle control stage: a paddle whose flag is off
/// moves by its held keys (the flag as it was at the start of the call
/// decides), the toggle flips the flag, and the offset is clamped to the
/// on-screen band.
pub fn move_paddle(paddle: &mut Paddle, input: PaddleInput, view: &Viewport)
    requires
        view.wf(),
        !old(paddle).auto ==> step_fits(old(paddle).y as int, *view),
    ensures
        *final(paddle) == paddle_after(*old(paddle), input, *view),
        old(paddle).auto ==> final(paddle).y as int == clamp_spec(
            old(paddle).y as int,
            -view.paddle_top_spec(),
            view.paddle_top_spec(),
        ),
        view.height >= 100 ==> -view.paddle_top_spec() <= final(paddle).y <= view.paddle_top_spec(),
{
    if !paddle.auto {
        manual_move_paddle(paddle, input, view);
    }
    if input.toggle {
        paddle.auto = !paddle.auto;
    }
    paddle.y = clamp_offset(paddle.y, view);
}

} // verus!
