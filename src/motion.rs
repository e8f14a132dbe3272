use vstd::prelude::*;
use crate::model::{Ball, MAX_SPEED, SPEED_DENOM, SUBUNITS_PER_SPEED_STEP, SUBUNITS_PER_UNIT};

verus! {

/// How far, in sub-units, a velocity component `v` carries the ball in one
/// frame at speed factor `speed / SPEED_DENOM`.
pub open spec fn displacement(v: int, speed: int) -> int {
    v * speed * SUBUNITS_PER_UNIT / (SPEED_DENOM as int)
}

/// The ball after one frame of motion.
pub open spec fn moved(ball: Ball) -> Ball {
    Ball {
        x: (ball.x + displacement(ball.vx as int, ball.speed as int)) as i64,
        y: (ball.y + displacement(ball.vy as int, ball.speed as int)) as i64,
        ..ball
    }
}

/// The position that one frame of motion gives, and whether it fits in the
/// position's machine type.
pub open spec fn motion_fits(ball: Ball) -> bool {
    &&& i64::MIN <= ball.x + displacement(ball.vx as int, ball.speed as int) <= i64::MAX
    &&& i64::MIN <= ball.y + displacement(ball.vy as int, ball.speed as int) <= i64::MAX
}

/// A displacement is a whole number of sub-units: the velocity times the
/// speed numerator times `SUBUNITS_PER_SPEED_STEP`.
pub proof fn lemma_displacement(v: int, speed: int)
    ensures
        displacement(v, speed) == v * speed * SUBUNITS_PER_SPEED_STEP,
{
    assert(v * speed * 300 == 15 * (v * speed * 20)) by (nonlinear_arith);
    vstd::arithmetic::div_mod::lemma_div_multiples_vanish(v * speed * 20, 15);
}

proof fn lemma_step_bounds(v: int, speed: int)
    requires
        -0x8000_0000 <= v <= 0x8000_0000,
        0 <= speed <= MAX_SPEED,
    ensures
        -0x8000_0000 * MAX_SPEED <= v * speed <= 0x8000_0000 * MAX_SPEED,
        -0x8000_0000 * MAX_SPEED * 20 <= v * speed * 20 <= 0x8000_0000 * MAX_SPEED * 20,
{
    assert(-0x8000_0000 * MAX_SPEED <= v * speed <= 0x8000_0000 * MAX_SPEED) by (nonlinear_arith)
        requires
            -0x8000_0000 <= v <= 0x8000_0000,
            0 <= speed <= MAX_SPEED,
    ;
}

/// Both displacements of `ball` in closed form, with bounds that fit `i128`.
proof fn lemma_ball_displacement(ball: Ball)
    requires
        ball.wf(),
    ensures
        displacement(ball.vx as int, ball.speed as int) == ball.vx * ball.speed * SUBUNITS_PER_SPEED_STEP,
        displacement(ball.vy as int, ball.speed as int) == ball.vy * ball.speed * SUBUNITS_PER_SPEED_STEP,
        -0x8000_0000 * MAX_SPEED <= ball.vx * ball.speed <= 0x8000_0000 * MAX_SPEED,
        -0x8000_0000 * MAX_SPEED <= ball.vy * ball.speed <= 0x8000_0000 * MAX_SPEED,
        -0x8000_0000 * MAX_SPEED * 20 <= ball.vx * ball.speed * 20 <= 0x8000_0000 * MAX_SPEED * 20,
        -0x8000_0000 * MAX_SPEED * 20 <= ball.vy * ball.speed * 20 <= 0x8000_0000 * MAX_SPEED * 20,
{
    lemma_displacement(ball.vx as int, ball.speed as int);
    lemma_displacement(ball.vy as int, ball.speed as int);
    lemma_step_bounds(ball.vx as int, ball.speed as int);
    lemma_step_bounds(ball.vy as int, ball.speed as int);
}

/// Whether one frame of motion keeps the ball's position within its machine type.
pub fn motion_fits_exec(ball: &Ball) -> (r: bool)
    requires
        ball.wf(),
    ensures
        r == motion_fits(*ball),
{
    proof {
        lemma_ball_displacement(*ball);
    }
    let dx: i128 = ball.vx as i128 * ball.speed as i128 * SUBUNITS_PER_SPEED_STEP as i128;
    let dy: i128 = ball.vy as i128 * ball.speed as i128 * SUBUNITS_PER_SPEED_STEP as i128;
    let x = ball.x as i128 + dx;
    let y = ball.y as i128 + dy;
    i64::MIN as i128 <= x && x <= i64::MAX as i128 && i64::MIN as i128 <= y && y <= i64::MAX as i128
}

/// Moves the ball by its velocity times its speed factor.
pub fn ball_move(ball: &mut Ball)
    requires
        old(ball).wf(),
        motion_fits(*old(ball)),
    ensures
        final(ball).x == old(ball).x + displacement(old(ball).vx as int, old(ball).speed as int),
        final(ball).y == old(ball).y + displacement(old(ball).vy as int, old(ball).speed as int),
        final(ball).vx == old(ball).vx,
        final(ball).vy == old(ball).vy,
        final(ball).speed == old(ball).speed,
        *final(ball) == moved(*old(ball)),
        final(ball).wf(),
{
    proof {
        lemma_ball_displacement(*ball);
    }
    let dx: i128 = ball.vx as i128 * ball.speed as i128 * SUBUNITS_PER_SPEED_STEP as i128;
    let dy: i128 = ball.vy as i128 * ball.speed as i128 * SUBUNITS_PER_SPEED_STEP as i128;
    ball.x = (ball.x as i128 + dx) as i64;
    ball.y = (ball.y as i128 + dy) as i64;
}

} // verus!
