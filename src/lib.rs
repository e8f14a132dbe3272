//! Per-frame simulation core of a two-paddle ball game.
//!
//! Coordinates are exact fixed-point integers: one world unit is
//! `SUBUNITS_PER_UNIT` sub-units, so every formula of the simulation
//! (speed scaling by thirds and fifths, paddle steps of a hundredth of the
//! viewport height, half-widths) is computed without rounding. Velocities are
//! whole units per frame and the speed factor is a numerator over
//! `SPEED_DENOM`.
//!
//! A frame runs the stages in order: motion, collision and scoring,
//! difficulty, paddle control.
pub mod model;
pub mod motion;
pub mod collision;
pub mod difficulty;
pub mod control;
pub mod frame;
pub mod laws;

pub use collision::{ball_collision, catches, Collision, Horizontal};
pub use control::{auto_move_paddle, clamp_offset, manual_move_paddle, move_paddle, PaddleInput};
pub use difficulty::{ball_speed_up, capped_total, speed_factor};
pub use frame::{sounds_for, Controls, Game, Sound};
pub use model::{
    Ball, Paddle, Scores, Side, Viewport, CATCH_HALF_HEIGHT, EDGE_MARGIN, MAX_EXTENT, MAX_SPEED,
    PADDLE_HALF_WIDTH, SCORE_CAP, SPEED_DENOM, SUBUNITS_PER_SPEED_STEP, SUBUNITS_PER_UNIT,
};
pub use motion::ball_move;
