use vstd::prelude::*;

verus! {

/// Sub-units in one world unit (a pixel of the viewport).
pub const SUBUNITS_PER_UNIT: i64 = 300;

/// Denominator of the speed factor: a ball whose `speed` is `s` moves
/// `s / SPEED_DENOM` times its velocity each frame.
pub const SPEED_DENOM: u64 = 15;

/// Sub-units the ball advances per unit of velocity and unit of `speed`
/// (`SUBUNITS_PER_UNIT / SPEED_DENOM`).
pub const SUBUNITS_PER_SPEED_STEP: i64 = 20;

/// Margin, in units, between the viewport's edge and the playfield boundary.
pub const EDGE_MARGIN: i64 = 20;

/// Half the height of a paddle's catch window, in units.
pub const CATCH_HALF_HEIGHT: i64 = 50;

/// Half the width of a paddle, in units.
pub const PADDLE_HALF_WIDTH: i64 = 10;

/// Total score above which the score no longer raises the speed.
pub const SCORE_CAP: u64 = 20;

/// Largest viewport side, in units, that the simulation accepts.
pub const MAX_EXTENT: i64 = 1_000_000_000;

/// Largest speed numerator that the difficulty formula can produce.
pub const MAX_SPEED: u64 = 21474836550;

/// One of the two sides of the playfield.
#[derive(Clone, Copy, Debug, PartialEq, Eq, Structural)]
pub enum Side {
    Left,
    Right,
}

impl Side {
    pub open spec fn opposite_spec(self) -> Side {
        match self {
            Side::Left => Side::Right,
            Side::Right => Side::Left,
        }
    }

    /// The other side.
    pub fn opposite(self) -> (r: Side)
        ensures
            r == self.opposite_spec(),
            r != self,
    {
        match self {
            Side::Left => Side::Right,
            Side::Right => Side::Left,
        }
    }
}

/// The ball: position in sub-units, velocity in units per frame, and the
/// speed factor as a numerator over `SPEED_DENOM`.
#[derive(Clone, Copy, Debug, PartialEq, Eq, Structural)]
pub struct Ball {
    pub x: i64,
    pub y: i64,
    pub vx: i32,
    pub vy: i32,
    pub speed: u64,
}

impl Ball {
    /// The speed factor is at least one and no more than the difficulty
    /// formula can give; both velocity components can be negated.
    pub open spec fn wf(self) -> bool {
        &&& SPEED_DENOM <= self.speed <= MAX_SPEED
        &&& self.vx > i32::MIN
        &&& self.vy > i32::MIN
    }

    pub open spec fn new_spec() -> Ball {
        Ball { x: 0, y: 0, vx: 3, vy: 3, speed: SPEED_DENOM }
    }

    /// The ball at the centre, moving by (3, 3) units per frame at speed factor 1.
    pub fn new() -> (r: Ball)
        ensures
            r == Ball::new_spec(),
            r.wf(),
    {
        Ball { x: 0, y: 0, vx: 3, vy: 3, speed: SPEED_DENOM }
    }
}

/// A paddle: its side, its vertical offset from the centre in sub-units,
/// and whether the auto-pilot steers it.
#[derive(Clone, Copy, Debug, PartialEq, Eq, Structural)]
pub struct Paddle {
    pub side: Side,
    pub y: i64,
    pub auto: bool,
}

impl Paddle {
    /// A centred paddle on `side`, steered by the auto-pilot.
    pub fn new(side: Side) -> (r: Paddle)
        ensures
            r.side == side,
            r.y == 0,
            r.auto,
    {
        Paddle { side, y: 0, auto: true }
    }
}

/// The tally of each side.
#[derive(Clone, Copy, Debug, PartialEq, Eq, Structural)]
pub struct Scores {
    pub left: u64,
    pub right: u64,
}

impl Scores {
    pub open spec fn of(self, side: Side) -> u64 {
        match side {
            Side::Left => self.left,
            Side::Right => self.right,
        }
    }

    /// Both tallies at zero.
    pub fn new() -> (r: Scores)
        ensures
            r.left == 0 && r.right == 0,
    {
        Scores { left: 0, right: 0 }
    }

    /// The tally of `side`.
    pub fn get(&self, side: Side) -> (r: u64)
        ensures
            r == self.of(side),
    {
        match side {
            Side::Left => self.left,
            Side::Right => self.right,
        }
    }

    /// The sum of both tallies, in the mathematical integers.
    pub open spec fn total(self) -> int {
        self.left + self.right
    }
}

/// The viewport's size in units.
#[derive(Clone, Copy, Debug, PartialEq, Eq, Structural)]
pub struct Viewport {
    pub width: i64,
    pub height: i64,
}

impl Viewport {
    /// Both sides are positive, and small enough for sub-unit arithmetic.
    pub open spec fn wf(self) -> bool {
        &&& 0 < self.width <= MAX_EXTENT
        &&& 0 < self.height <= MAX_EXTENT
    }

    /// Half the playfield's height, inside the margin, in sub-units.
    pub open spec fn half_height_spec(self) -> int {
        self.height * SUBUNITS_PER_UNIT / 2 - EDGE_MARGIN * SUBUNITS_PER_UNIT
    }

    /// Half the playfield's width, inside the margin, in sub-units.
    pub open spec fn half_width_spec(self) -> int {
        self.width * SUBUNITS_PER_UNIT / 2 - EDGE_MARGIN * SUBUNITS_PER_UNIT
    }

    /// A paddle's step per frame, a hundredth of the viewport height, in sub-units.
    pub open spec fn step_spec(self) -> int {
        self.height * SUBUNITS_PER_UNIT / 100
    }

    /// The highest paddle offset: half the viewport height less half a paddle.
    pub open spec fn paddle_top_spec(self) -> int {
        self.height * SUBUNITS_PER_UNIT / 2 - CATCH_HALF_HEIGHT * SUBUNITS_PER_UNIT
    }

    /// The horizontal plane of the paddle on `side`: half the viewport width
    /// out from the centre, in sub-units.
    pub open spec fn paddle_plane_spec(self, side: Side) -> int {
        match side {
            Side::Left => -(self.width * SUBUNITS_PER_UNIT / 2),
            Side::Right => self.width * SUBUNITS_PER_UNIT / 2,
        }
    }

    /// Where a paddle on `side` is drawn: its centre, half a paddle inside
    /// the viewport's edge, in sub-units.
    pub open spec fn paddle_screen_x_spec(self, side: Side) -> int {
        let x = self.width * SUBUNITS_PER_UNIT / 2 - PADDLE_HALF_WIDTH * SUBUNITS_PER_UNIT;
        match side {
            Side::Left => -x,
            Side::Right => x,
        }
    }

    pub fn paddle_screen_x(&self, side: Side) -> (r: i64)
        requires
            self.wf(),
        ensures
            r == self.paddle_screen_x_spec(side),
    {
        let x = self.width * (SUBUNITS_PER_UNIT / 2) - PADDLE_HALF_WIDTH * SUBUNITS_PER_UNIT;
        match side {
            Side::Left => -x,
            Side::Right => x,
        }
    }

    /// A viewport of the given size, or `None` where a side is not positive
    /// or exceeds `MAX_EXTENT`.
    pub fn new(width: i64, height: i64) -> (r: Option<Viewport>)
        ensures
            r is Some <==> (0 < width <= MAX_EXTENT && 0 < height <= MAX_EXTENT),
            r matches Some(v) ==> v.width == width && v.height == height && v.wf(),
    {
        if 0 < width && width <= MAX_EXTENT && 0 < height && height <= MAX_EXTENT {
            Some(Viewport { width, height })
        } else {
            None
        }
    }

    pub fn half_height(&self) -> (r: i64)
        requires
            self.wf(),
        ensures
            r == self.half_height_spec(),
    {
        self.height * (SUBUNITS_PER_UNIT / 2) - EDGE_MARGIN * SUBUNITS_PER_UNIT
    }

    pub fn half_width(&self) -> (r: i64)
        requires
            self.wf(),
        ensures
            r == self.half_width_spec(),
    {
        self.width * (SUBUNITS_PER_UNIT / 2) - EDGE_MARGIN * SUBUNITS_PER_UNIT
    }

    pub fn step(&self) -> (r: i64)
        requires
            self.wf(),
        ensures
            r == self.step_spec(),
            r > 0,
    {
        self.height * SUBUNITS_PER_UNIT / 100
    }

    pub fn paddle_top(&self) -> (r: i64)
        requires
            self.wf(),
        ensures
            r == self.paddle_top_spec(),
    {
        self.height * (SUBUNITS_PER_UNIT / 2) - CATCH_HALF_HEIGHT * SUBUNITS_PER_UNIT
    }

    pub fn paddle_plane(&self, side: Side) -> (r: i64)
        requires
            self.wf(),
        ensures
            r == self.paddle_plane_spec(side),
    {
        match side {
            Side::Left => -(self.width * (SUBUNITS_PER_UNIT / 2)),
            Side::Right => self.width * (SUBUNITS_PER_UNIT / 2),
        }
    }
}

} // verus!
