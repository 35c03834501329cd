use vstd::prelude::*;

use crate::geometry::{
    abs, ARENA_HEIGHT, ARENA_WIDTH, BALL_SPEED, PADDLE_HEIGHT, PADDLE_OFFSET, PADDLE_SPEED,
    STARTING_BALL_SPEED, WALL_Y, END_X,
};

verus! {

/// Which player: the one on the left or the one on the right.
#[derive(Clone, Copy, Debug, PartialEq, Eq, Structural)]
pub enum Sides {
    Left,
    Right,
}

/// The fixed horizontal centre of the paddle on `side`.
pub open spec fn home_x(side: Sides) -> int {
    match side {
        Sides::Left => -ARENA_WIDTH / 2 + PADDLE_OFFSET,
        Sides::Right => ARENA_WIDTH / 2 - PADDLE_OFFSET,
    }
}

/// Highest (and, negated, lowest) paddle centre that movement can reach: the clamp is
/// tested before a step, so a paddle may overshoot the wall by less than one step.
pub open spec fn paddle_reach() -> int {
    ARENA_HEIGHT / 2 - PADDLE_HEIGHT / 2 + PADDLE_SPEED
}

/// Bound on the height of a ball centre; see `Ball::wf`.
pub open spec fn ball_reach() -> int {
    ARENA_HEIGHT / 2 + PADDLE_SPEED + BALL_SPEED
}

/// A paddle: its side fixes its horizontal position, `y` is its vertical centre.
#[derive(Clone, Copy, Debug, PartialEq, Eq, Structural)]
pub struct Paddle {
    pub side: Sides,
    pub y: i64,
}

impl Paddle {
    pub open spec fn top(self) -> int {
        self.y + PADDLE_HEIGHT / 2
    }

    pub open spec fn bottom(self) -> int {
        self.y - PADDLE_HEIGHT / 2
    }

    /// The paddle is at most one step beyond either wall.
    pub open spec fn wf(self) -> bool {
        -paddle_reach() < self.y < paddle_reach()
    }

    /// A paddle at its home position.
    pub open spec fn home(side: Sides) -> Paddle {
        Paddle { side, y: 0 }
    }
}

/// The ball: position of its centre and velocity, both in sub-units (per tick).
#[derive(Clone, Copy, Debug, PartialEq, Eq, Structural)]
pub struct Ball {
    pub x: i64,
    pub y: i64,
    pub vx: i64,
    pub vy: i64,
}

impl Ball {
    /// A freshly served ball: at the centre, moving up and to the right at starting speed.
    pub open spec fn served() -> Ball {
        Ball { x: 0, y: 0, vx: STARTING_BALL_SPEED, vy: STARTING_BALL_SPEED }
    }

    /// The horizontal speed is the starting or the full speed; the vertical speed is
    /// at most the full speed; the ball is at most one tick beyond an end line; and
    /// its height is bounded, also one tick ahead while it is touching a wall.
    pub open spec fn wf(self) -> bool {
        &&& abs(self.vx as int) == STARTING_BALL_SPEED || abs(self.vx as int) == BALL_SPEED
        &&& abs(self.vy as int) <= BALL_SPEED
        &&& abs(self.x as int) <= END_X + BALL_SPEED
        &&& abs(self.y as int) <= ball_reach()
        &&& abs(self.y as int) > WALL_Y ==> abs(self.y - self.vy) <= ball_reach()
    }
}

/// The two players' points.
#[derive(Clone, Copy, Debug, PartialEq, Eq, Structural)]
pub struct Score {
    pub left: u32,
    pub right: u32,
}

impl Score {
    /// The score after `side` has made a point.
    pub open spec fn add_point(self, side: Sides) -> Score {
        match side {
            Sides::Left => Score { left: (self.left + 1) as u32, ..self },
            Sides::Right => Score { right: (self.right + 1) as u32, ..self },
        }
    }

    /// The point `event` (if any) can be added: the scorer's counter is not at its
    /// largest value.
    pub open spec fn can_score(self, event: Option<ScoreEvent>) -> bool {
        match event {
            None => true,
            Some(e) => match e.side {
                Sides::Left => self.left < u32::MAX,
                Sides::Right => self.right < u32::MAX,
            },
        }
    }
}

/// The value shown as one side's score.
#[derive(Clone, Copy, Debug, PartialEq, Eq, Structural)]
pub struct ScoreText {
    pub side: Sides,
    pub value: u32,
}

/// Signal that `side` has just made a point.
#[derive(Clone, Copy, Debug, PartialEq, Eq, Structural)]
pub struct ScoreEvent {
    pub side: Sides,
}

/// Everything that belongs to a running match: torn down as a whole when the match ends.
#[derive(Clone, Copy, Debug, PartialEq, Eq, Structural)]
pub struct Game {
    pub left: Paddle,
    pub right: Paddle,
    pub ball: Ball,
    pub left_text: ScoreText,
    pub right_text: ScoreText,
}

impl Game {
    pub open spec fn wf(self) -> bool {
        &&& self.left.side == Sides::Left
        &&& self.right.side == Sides::Right
        &&& self.left.wf()
        &&& self.right.wf()
        &&& self.ball.wf()
        &&& self.left_text.side == Sides::Left
        &&& self.right_text.side == Sides::Right
    }

    /// The score texts show `score`.
    pub open spec fn shows(self, score: Score) -> bool {
        self.left_text.value == score.left && self.right_text.value == score.right
    }
}

/// Which movement keys are held during a tick.
#[derive(Clone, Copy, Debug, PartialEq, Eq, Structural)]
pub struct HeldKeys {
    pub left_up: bool,
    pub left_down: bool,
    pub right_up: bool,
    pub right_down: bool,
}

} // verus!
