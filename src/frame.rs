use vstd::prelude::*;
use crate::collision::{
    ball_after, ball_collision, hits_wall, horizontal_outcome, rally_after, scores_after,
    Collision, Horizontal,
};
use crate::control::{auto_move_paddle, autopilot_paddle, move_paddle, paddle_after, step_fits, PaddleInput};
use crate::difficulty::{ball_speed_up, speed_for};
use crate::model::{Ball, Paddle, Scores, Side, Viewport};
use crate::motion::{ball_move, motion_fits, motion_fits_exec, moved};

verus! {

/// A sound that the host should play.
#[derive(Clone, Copy, Debug, PartialEq, Eq, Structural)]
pub enum Sound {
    Wall,
    Catch,
    Score,
}

/// Both sides' controls in one frame.
#[derive(Clone, Copy, Debug, PartialEq, Eq, Structural)]
pub struct Controls {
    pub left: PaddleInput,
    pub right: PaddleInput,
}

/// The whole simulation state: the ball, a paddle per side, the scores and
/// the rally counter.
#[derive(Clone, Copy, Debug, PartialEq, Eq, Structural)]
pub struct Game {
    pub ball: Ball,
    pub left: Paddle,
    pub right: Paddle,
    pub scores: Scores,
    pub rally: u32,
}

/// What the collision stage reports for `ball`.
pub open spec fn collision_spec(ball: Ball, left: Paddle, right: Paddle, view: Viewport) -> Collision {
    Collision { wall: hits_wall(ball, view), horizontal: horizontal_outcome(ball, left, right, view) }
}

/// The sounds for a collision report: the wall's first, then the catch's or
/// the point's.
pub open spec fn sounds_spec(c: Collision) -> Seq<Sound> {
    let wall = if c.wall { seq![Sound::Wall] } else { Seq::empty() };
    match c.horizontal {
        Horizontal::NoEvent => wall,
        Horizontal::Catch(_) => wall.push(Sound::Catch),
        Horizontal::Score(_) => wall.push(Sound::Score),
    }
}

/// The sounds that a collision report calls for.
pub fn sounds_for(c: Collision) -> (r: Vec<Sound>)
    ensures
        r@ == sounds_spec(c),
{
    let mut r: Vec<Sound> = Vec::new();
    if c.wall {
        r.push(Sound::Wall);
    }
    match c.horizontal {
        Horizontal::NoEvent => {},
        Horizontal::Catch(_) => r.push(Sound::Catch),
        Horizontal::Score(_) => r.push(Sound::Score),
    }
    proof {
        if c.wall {
            assert(seq![Sound::Wall] =~= Seq::<Sound>::empty().push(Sound::Wall));
        }
    }
    r
}

impl Game {
    /// Each paddle is on its own side and the ball is well formed.
    pub open spec fn wf(self) -> bool {
        &&& self.ball.wf()
        &&& self.left.side == Side::Left
        &&& self.right.side == Side::Right
    }

    /// Every counter and coordinate can take one more frame within its
    /// machine type.
    pub open spec fn can_advance(self, view: Viewport) -> bool {
        &&& motion_fits(self.ball)
        &&& step_fits(self.left.y as int, view)
        &&& step_fits(self.right.y as int, view)
        &&& self.scores.left < u64::MAX
        &&& self.scores.right < u64::MAX
        &&& self.rally < u32::MAX
    }

    /// Whether every counter and coordinate can take one more frame.
    pub fn fits_next_frame(&self, view: &Viewport) -> (r: bool)
        requires
            self.wf(),
            view.wf(),
        ensures
            r == self.can_advance(*view),
    {
        let step = view.step() as i128;
        let left = self.left.y as i128;
        let right = self.right.y as i128;
        let steps_fit = i64::MIN as i128 + step <= left && left <= i64::MAX as i128 - step
            && i64::MIN as i128 + step <= right && right <= i64::MAX as i128 - step;
        motion_fits_exec(&self.ball) && steps_fit && self.scores.left < u64::MAX
            && self.scores.right < u64::MAX && self.rally < u32::MAX
    }

    /// The state at the start of a game: the ball centred and moving by
    /// (3, 3) at speed factor one, both paddles centred on auto-pilot, no
    /// points and no rally.
    pub fn new() -> (r: Game)
        ensures
            r.wf(),
            r.ball == Ball::new_spec(),
            r.left.y == 0 && r.left.auto,
            r.right.y == 0 && r.right.auto,
            r.scores.left == 0 && r.scores.right == 0,
            r.rally == 0,
    {
        Game {
            ball: Ball::new(),
            left: Paddle::new(Side::Left),
            right: Paddle::new(Side::Right),
            scores: Scores::new(),
            rally: 0,
        }
    }

    /// Advances the simulation by one frame: motion, collision and scoring,
    /// difficulty, then paddle control (the auto-pilot step, then the manual
    /// controls, the toggle and the clamp); returns the sounds to play.
    pub fn advance(&mut self, view: &Viewport, controls: Controls) -> (r: Vec<Sound>)
        requires
            old(self).wf(),
            view.wf(),
            old(self).can_advance(*view),
        ensures
            ({
                let b1 = moved(old(self).ball);
                let c = collision_spec(b1, old(self).left, old(self).right, *view);
                let scores = scores_after(old(self).scores, c.horizontal);
                let rally = rally_after(old(self).rally, c.horizontal);
                let b2 = ball_after(b1, c.wall, c.horizontal);
                &&& final(self).ball == Ball { speed: speed_for(scores.total(), rally) as u64, ..b2 }
                &&& final(self).scores == scores
                &&& final(self).rally as int == rally
                &&& final(self).left == paddle_after(
                    autopilot_paddle(old(self).left, final(self).ball, *view),
                    controls.left,
                    *view,
                )
                &&& final(self).right == paddle_after(
                    autopilot_paddle(old(self).right, final(self).ball, *view),
                    controls.right,
                    *view,
                )
                &&& r@ == sounds_spec(c)
            }),
            view.height >= 100 ==> -view.paddle_top_spec() <= final(self).left.y <= view.paddle_top_spec(),
            view.height >= 100 ==> -view.paddle_top_spec() <= final(self).right.y <= view.paddle_top_spec(),
            final(self).wf(),
    {
        ball_move(&mut self.ball);
        let c = ball_collision(&mut self.ball, &self.left, &self.right, &mut self.scores, &mut self.rally, view);
        ball_speed_up(&mut self.ball, &self.scores, self.rally);
        auto_move_paddle(&mut self.left, &self.ball, view);
        move_paddle(&mut self.left, controls.left, view);
        auto_move_paddle(&mut self.right, &self.ball, view);
        move_paddle(&mut self.right, controls.right, view);
        sounds_for(c)
    }
}

} // verus!
