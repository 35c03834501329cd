use vstd::prelude::*;

verus! {

/// Lengths are fixed-point: one arena unit is `UNIT` sub-units.
pub const UNIT: i64 = 1000;

pub const ARENA_WIDTH: i64 = 800 * UNIT;
pub const ARENA_HEIGHT: i64 = 400 * UNIT;

pub const BALL_SIZE: i64 = 10 * UNIT;
/// Displacement per tick of a ball after its first paddle contact in a rally.
pub const BALL_SPEED: i64 = 3 * UNIT;
/// Displacement per tick along each axis of a freshly served ball: a third of `BALL_SPEED`.
pub const STARTING_BALL_SPEED: i64 = UNIT;
pub const BALL_MAX_ANGLE_MULTIPLIER: i64 = 6;

pub const PADDLE_WIDTH: i64 = BALL_SIZE;
pub const PADDLE_HEIGHT: i64 = 50 * UNIT;
pub const PADDLE_SPEED: i64 = 3 * UNIT;
pub const PADDLE_OFFSET: i64 = BALL_SIZE * 5;

} // verus!

verus! {

/// Height of the wall line: a ball centre beyond `±WALL_Y` touches the top or bottom wall
/// (half the arena height less half the ball size).
pub const WALL_Y: i64 = 195 * UNIT;

/// End line: a ball centre beyond `±END_X` has left the arena and scores
/// (half the arena width).
pub const END_X: i64 = 400 * UNIT;

pub open spec fn abs(v: int) -> int {
    if v < 0 {
        -v
    } else {
        v
    }
}

/// An axis-aligned rectangle, given by its edges.
#[derive(Clone, Copy, Debug, PartialEq, Eq, Structural)]
pub struct Collider {
    pub left: i64,
    pub right: i64,
    pub bottom: i64,
    pub top: i64,
}

impl Collider {
    /// The point lies strictly inside the rectangle.
    pub open spec fn spec_contains(self, x: int, y: int) -> bool {
        self.left < x < self.right && self.bottom < y < self.top
    }

    /// Whether the point `(x, y)` lies strictly inside the rectangle.
    pub fn contains(&self, x: i64, y: i64) -> (r: bool)
        ensures
            r == self.spec_contains(x as int, y as int),
    {
        self.left < x && x < self.right && self.bottom < y && y < self.top
    }
}

} // verus!
