use pong::{
    auto_move_paddle, ball_collision, ball_move, ball_speed_up, capped_total, catches,
    clamp_offset, manual_move_paddle, move_paddle, sounds_for, speed_factor, Ball, Collision,
    Controls, Game, Horizontal, Paddle, PaddleInput, Scores, Side, Sound, Viewport,
    SUBUNITS_PER_UNIT,
};

const U: i64 = SUBUNITS_PER_UNIT;

fn view() -> Viewport {
    Viewport { width: 800, height: 600 }
}

fn ball_at(x: i64, y: i64, vx: i32, vy: i32) -> Ball {
    Ball { x: x * U, y: y * U, vx, vy, speed: 15 }
}

fn no_input() -> PaddleInput {
    PaddleInput { up: false, down: false, toggle: false }
}

#[test]
fn motion_tick_from_centre() {
    let mut b = ball_at(0, 0, 3, 3);
    ball_move(&mut b);
    assert_eq!((b.x, b.y), (3 * U, 3 * U));
    assert_eq!((b.vx, b.vy, b.speed), (3, 3, 15));
}

#[test]
fn motion_scales_with_speed_factor() {
    // speed factor 7/3: 3 units times 7/3 is 7 units; -6 times 7/3 is -14.
    let mut b = Ball { x: 5 * U, y: 0, vx: 3, vy: -6, speed: 35 };
    ball_move(&mut b);
    assert_eq!((b.x, b.y), (12 * U, -14 * U));
}

#[test]
fn right_paddle_catches() {
    let v = view();
    let mut b = ball_at(381, 10, 3, 3);
    let left = Paddle::new(Side::Left);
    let right = Paddle::new(Side::Right);
    let mut scores = Scores::new();
    let mut rally: u32 = 0;
    let c = ball_collision(&mut b, &left, &right, &mut scores, &mut rally, &v);
    assert_eq!(c, Collision { wall: false, horizontal: Horizontal::Catch(Side::Right) });
    assert_eq!(b.vx, -3);
    assert_eq!(rally, 1);
    assert_eq!(scores, Scores { left: 0, right: 0 });
    assert_eq!((b.x, b.y), (381 * U, 10 * U));
}

#[test]
fn right_paddle_misses() {
    let v = view();
    let mut b = ball_at(381, 10, 3, 3);
    let left = Paddle::new(Side::Left);
    let right = Paddle { side: Side::Right, y: 200 * U, auto: true };
    let mut scores = Scores::new();
    let mut rally: u32 = 4;
    let c = ball_collision(&mut b, &left, &right, &mut scores, &mut rally, &v);
    assert_eq!(c.horizontal, Horizontal::Score(Side::Left));
    assert_eq!(scores, Scores { left: 1, right: 0 });
    assert_eq!((b.x, b.y), (0, 0));
    assert_eq!(rally, 0);
    assert_eq!(b.vx, 3);
}

#[test]
fn left_paddle_catches_and_misses() {
    let v = view();
    let left = Paddle { side: Side::Left, y: -100 * U, auto: false };
    let right = Paddle::new(Side::Right);
    let mut scores = Scores::new();
    let mut rally: u32 = 2;
    let mut b = ball_at(-380, -120, -3, 3);
    let c = ball_collision(&mut b, &left, &right, &mut scores, &mut rally, &v);
    assert_eq!(c.horizontal, Horizontal::Catch(Side::Left));
    assert_eq!((b.vx, rally), (3, 3));
    let mut b = ball_at(-390, 0, -3, 3);
    let c = ball_collision(&mut b, &left, &right, &mut scores, &mut rally, &v);
    assert_eq!(c.horizontal, Horizontal::Score(Side::Right));
    assert_eq!(scores, Scores { left: 0, right: 1 });
    assert_eq!((b.x, b.y, rally), (0, 0, 0));
}

#[test]
fn catch_window_edges_miss() {
    let v = view();
    let left = Paddle::new(Side::Left);
    let right = Paddle::new(Side::Right);
    for y in [50, -50] {
        let mut b = ball_at(381, y, 3, 3);
        let mut scores = Scores::new();
        let mut rally: u32 = 0;
        let c = ball_collision(&mut b, &left, &right, &mut scores, &mut rally, &v);
        assert_eq!(c.horizontal, Horizontal::Score(Side::Left));
    }
    assert!(catches(0, 50 * U - 1));
    assert!(catches(0, -50 * U + 1));
    assert!(!catches(0, 50 * U));
    assert!(!catches(0, -50 * U));
}

#[test]
fn wall_bounce_alone() {
    let v = view();
    let mut b = ball_at(0, 280, 3, 3);
    let mut scores = Scores::new();
    let mut rally: u32 = 5;
    let c = ball_collision(&mut b, &Paddle::new(Side::Left), &Paddle::new(Side::Right), &mut scores, &mut rally, &v);
    assert_eq!(c, Collision { wall: true, horizontal: Horizontal::NoEvent });
    assert_eq!((b.vx, b.vy, rally), (3, -3, 5));
    let mut b = ball_at(0, -279, 3, -3);
    let c = ball_collision(&mut b, &Paddle::new(Side::Left), &Paddle::new(Side::Right), &mut scores, &mut rally, &v);
    assert_eq!(c, Collision { wall: false, horizontal: Horizontal::NoEvent });
    assert_eq!(b.vy, -3);
}

#[test]
fn wall_bounce_with_catch() {
    let v = view();
    let mut b = ball_at(380, 285, 3, 3);
    let right = Paddle { side: Side::Right, y: 250 * U, auto: true };
    let mut scores = Scores::new();
    let mut rally: u32 = 0;
    let c = ball_collision(&mut b, &Paddle::new(Side::Left), &right, &mut scores, &mut rally, &v);
    assert_eq!(c, Collision { wall: true, horizontal: Horizontal::Catch(Side::Right) });
    assert_eq!((b.vx, b.vy), (-3, -3));
    assert_eq!(sounds_for(c), vec![Sound::Wall, Sound::Catch]);
}

#[test]
fn speed_factor_capped_score() {
    let s = speed_factor(&Scores { left: 10, right: 15 }, 6);
    // 15 * (1 + 20/5 + 6/3) = 15 * 7
    assert_eq!(s, 105);
    assert_eq!(capped_total(&Scores { left: 10, right: 15 }), 20);
    assert_eq!(capped_total(&Scores { left: 4, right: 7 }), 11);
    assert_eq!(capped_total(&Scores { left: u64::MAX, right: u64::MAX }), 20);
}

#[test]
fn speed_factor_is_recomputed() {
    let mut b = Ball { x: 0, y: 0, vx: 3, vy: 3, speed: 400 };
    ball_speed_up(&mut b, &Scores { left: 1, right: 2 }, 0);
    // 15 * (1 + 3/5) = 24
    assert_eq!(b.speed, 24);
    ball_speed_up(&mut b, &Scores { left: 1, right: 2 }, 0);
    assert_eq!(b.speed, 24);
    ball_speed_up(&mut b, &Scores::new(), 0);
    assert_eq!(b.speed, 15);
    ball_speed_up(&mut b, &Scores::new(), u32::MAX);
    assert_eq!(b.speed, 15 + 5 * u32::MAX as u64);
}

#[test]
fn clamp_keeps_paddle_on_screen() {
    let v = view();
    // band is [-250, 250] units
    assert_eq!(clamp_offset(1000 * U, &v), 250 * U);
    assert_eq!(clamp_offset(-1000 * U, &v), -250 * U);
    assert_eq!(clamp_offset(i64::MAX, &v), 250 * U);
    assert_eq!(clamp_offset(i64::MIN, &v), -250 * U);
    assert_eq!(clamp_offset(17, &v), 17);
}

#[test]
fn manual_moves_by_one_step() {
    let v = view();
    let mut p = Paddle { side: Side::Left, y: 0, auto: false };
    manual_move_paddle(&mut p, PaddleInput { up: true, down: false, toggle: false }, &v);
    assert_eq!(p.y, 6 * U);
    manual_move_paddle(&mut p, PaddleInput { up: true, down: true, toggle: false }, &v);
    assert_eq!(p.y, 6 * U);
    manual_move_paddle(&mut p, PaddleInput { up: false, down: true, toggle: false }, &v);
    assert_eq!(p.y, 0);
}

#[test]
fn autopilot_steps_toward_prediction() {
    let v = view();
    // ball at (0,0) moving (3,3): crosses x = 400 at y = 400, far above
    let b = ball_at(0, 0, 3, 3);
    let mut p = Paddle::new(Side::Right);
    auto_move_paddle(&mut p, &b, &v);
    assert_eq!(p.y, 6 * U);
    // the left plane at x = -400 is crossed at y = -400
    let mut p = Paddle::new(Side::Left);
    auto_move_paddle(&mut p, &b, &v);
    assert_eq!(p.y, -6 * U);
}

#[test]
fn autopilot_holds_without_horizontal_velocity() {
    let v = view();
    let b = ball_at(10, 100, 0, 3);
    let mut p = Paddle { side: Side::Right, y: 7, auto: true };
    auto_move_paddle(&mut p, &b, &v);
    assert_eq!(p.y, 7);
}

#[test]
fn autopilot_holds_on_target() {
    let v = view();
    // ball at (100, 0) moving (3, -3) crosses x = 400 at y = -300
    let b = ball_at(100, 0, 3, -3);
    let mut p = Paddle { side: Side::Right, y: -300 * U, auto: true };
    auto_move_paddle(&mut p, &b, &v);
    assert_eq!(p.y, -300 * U);
}

#[test]
fn move_paddle_leaves_auto_paddle_to_autopilot() {
    let v = view();
    // held keys do not move a paddle on auto-pilot; the toggle flips the flag
    let mut p = Paddle { side: Side::Right, y: 248 * U, auto: true };
    move_paddle(&mut p, PaddleInput { up: true, down: false, toggle: true }, &v);
    assert_eq!(p.y, 248 * U);
    assert!(!p.auto);
    // now manual: the held key moves it
    move_paddle(&mut p, PaddleInput { up: false, down: true, toggle: false }, &v);
    assert_eq!(p.y, 242 * U);
    // an auto paddle out of the band is only clamped
    let mut q = Paddle { side: Side::Left, y: 400 * U, auto: true };
    move_paddle(&mut q, no_input(), &v);
    assert_eq!(q.y, 250 * U);
    assert!(q.auto);
}

#[test]
fn move_paddle_without_keys_is_idempotent() {
    let v = view();
    let mut p = Paddle { side: Side::Right, y: 30 * U, auto: true };
    move_paddle(&mut p, no_input(), &v);
    let once = p;
    move_paddle(&mut p, no_input(), &v);
    assert_eq!(p, once);
    assert_eq!(p.y, 30 * U);
}

#[test]
fn autopilot_leaves_manual_paddle() {
    let v = view();
    let b = ball_at(0, 0, 3, 3);
    let mut right = Paddle { side: Side::Right, y: 0, auto: true };
    let mut left = Paddle { side: Side::Left, y: 0, auto: false };
    auto_move_paddle(&mut right, &b, &v);
    auto_move_paddle(&mut left, &b, &v);
    assert_eq!(right.y, 6 * U);
    assert_eq!(left.y, 0);
    assert!(!left.auto && right.auto);
}

#[test]
fn frame_moves_auto_then_manual() {
    let v = view();
    let mut g = Game::new();
    g.left.auto = false;
    let controls = Controls { left: PaddleInput { up: true, down: false, toggle: false }, right: no_input() };
    g.advance(&v, controls);
    assert_eq!(g.left.y, 6 * U);
    assert_eq!(g.right.y, 6 * U);
    let mut g = Game::new();
    g.right.y = 248 * U;
    g.advance(&v, Controls { left: no_input(), right: no_input() });
    // one auto-pilot step up, then the clamp
    assert_eq!(g.right.y, 250 * U);
}

#[test]
fn small_viewport_clamps_to_lower_edge() {
    let v = Viewport { width: 80, height: 60 };
    // band bounds cross: -(30 - 50) = 20 > 30 - 50 = -20
    assert_eq!(clamp_offset(0, &v), 20 * U);
}

#[test]
fn sounds_order() {
    assert_eq!(sounds_for(Collision { wall: false, horizontal: Horizontal::NoEvent }), vec![]);
    assert_eq!(
        sounds_for(Collision { wall: true, horizontal: Horizontal::Score(Side::Left) }),
        vec![Sound::Wall, Sound::Score]
    );
    assert_eq!(sounds_for(Collision { wall: false, horizontal: Horizontal::Catch(Side::Left) }), vec![Sound::Catch]);
}

#[test]
fn viewport_geometry() {
    let v = view();
    assert_eq!(v.half_width(), 380 * U);
    assert_eq!(v.half_height(), 280 * U);
    assert_eq!(v.step(), 6 * U);
    assert_eq!(v.paddle_top(), 250 * U);
    assert_eq!(v.paddle_plane(Side::Left), -400 * U);
    assert_eq!(v.paddle_screen_x(Side::Right), 390 * U);
    assert_eq!(v.paddle_screen_x(Side::Left), -390 * U);
    let odd = Viewport { width: 801, height: 601 };
    assert_eq!(odd.half_width(), 2 * 380 * U / 2 + U / 2);
    assert_eq!(odd.step(), 601 * U / 100);
}

#[test]
fn new_game() {
    let g = Game::new();
    assert_eq!(g.ball, Ball { x: 0, y: 0, vx: 3, vy: 3, speed: 15 });
    assert_eq!(g.left, Paddle { side: Side::Left, y: 0, auto: true });
    assert_eq!(g.right, Paddle { side: Side::Right, y: 0, auto: true });
    assert_eq!(g.scores, Scores::new());
    assert_eq!(g.rally, 0);
    assert_eq!(Side::Left.opposite(), Side::Right);
    assert_eq!(g.scores.get(Side::Right), 0);
}

#[test]
fn frame_runs_stages_in_order() {
    let v = view();
    let mut g = Game::new();
    let controls = Controls { left: no_input(), right: no_input() };
    let sounds = g.advance(&v, controls);
    assert!(sounds.is_empty());
    assert_eq!((g.ball.x, g.ball.y), (3 * U, 3 * U));
    assert_eq!(g.ball.speed, 15);
    assert_eq!(g.right.y, 6 * U);
    assert_eq!(g.left.y, -6 * U);
}

#[test]
fn frame_scores_and_recomputes_speed() {
    let v = view();
    let mut g = Game::new();
    g.ball = Ball { x: 378 * U, y: 0, vx: 3, vy: 3, speed: 15 };
    g.right.y = 200 * U;
    g.rally = 9;
    let controls = Controls { left: no_input(), right: PaddleInput { up: false, down: false, toggle: true } };
    let sounds = g.advance(&v, controls);
    assert_eq!(sounds, vec![Sound::Score]);
    assert_eq!(g.scores, Scores { left: 1, right: 0 });
    assert_eq!((g.ball.x, g.ball.y, g.rally), (0, 0, 0));
    assert_eq!(g.ball.speed, 18);
    assert!(!g.right.auto);
}

#[test]
fn frame_catch_raises_speed() {
    let v = view();
    let mut g = Game::new();
    g.ball = Ball { x: 378 * U, y: 0, vx: 3, vy: 3, speed: 15 };
    let sounds = g.advance(&v, Controls { left: no_input(), right: no_input() });
    assert_eq!(sounds, vec![Sound::Catch]);
    assert_eq!(g.rally, 1);
    assert_eq!(g.ball.vx, -3);
    assert_eq!(g.ball.speed, 20);
}

#[test]
fn viewport_rejects_unusable_sizes() {
    assert_eq!(Viewport::new(800, 600), Some(Viewport { width: 800, height: 600 }));
    assert_eq!(Viewport::new(0, 600), None);
    assert_eq!(Viewport::new(800, -1), None);
    assert_eq!(Viewport::new(pong::MAX_EXTENT + 1, 600), None);
    assert_eq!(Viewport::new(pong::MAX_EXTENT, pong::MAX_EXTENT).is_some(), true);
}

#[test]
fn frame_limits_are_detected() {
    let v = view();
    let mut g = Game::new();
    assert!(g.fits_next_frame(&v));
    g.rally = u32::MAX;
    assert!(!g.fits_next_frame(&v));
    g.rally = 0;
    g.scores.right = u64::MAX;
    assert!(!g.fits_next_frame(&v));
    g.scores.right = 0;
    g.ball.x = i64::MAX - 10;
    assert!(!g.fits_next_frame(&v));
    assert!(!pong::motion::motion_fits_exec(&g.ball));
    g.ball.x = 0;
    g.left.y = i64::MIN;
    assert!(!g.fits_next_frame(&v));
}
