use vstd::prelude::*;

use crate::entities::{ball_reach, home_x, paddle_reach, Ball, Game, HeldKeys, Paddle, ScoreEvent, Sides};
use crate::geometry::{
    abs, Collider, ARENA_HEIGHT, BALL_MAX_ANGLE_MULTIPLIER, BALL_SPEED, END_X, PADDLE_HEIGHT,
    PADDLE_OFFSET, PADDLE_SPEED, PADDLE_WIDTH, STARTING_BALL_SPEED, UNIT, WALL_Y, ARENA_WIDTH,
};

verus! {

// ---------------------------------------------------------------------------
// Paddle movement
// ---------------------------------------------------------------------------

/// One tick of a paddle: "up" moves it one step up unless its top has reached the
/// top wall, "down" one step down unless its bottom has reached the bottom wall; the
/// two steps add up.
pub open spec fn paddle_step(p: Paddle, up: bool, down: bool) -> Paddle {
    let rise: int = if up && p.top() < ARENA_HEIGHT / 2 { PADDLE_SPEED as int } else { 0 };
    let fall: int = if down && p.bottom() > -ARENA_HEIGHT / 2 { PADDLE_SPEED as int } else { 0 };
    Paddle { y: (p.y + rise - fall) as i64, ..p }
}

/// The paddle after `n` ticks with the same keys held.
pub open spec fn paddle_steps(p: Paddle, up: bool, down: bool, n: nat) -> Paddle
    decreases n,
{
    if n == 0 {
        p
    } else {
        paddle_step(paddle_steps(p, up, down, (n - 1) as nat), up, down)
    }
}

/// Moves one paddle for one tick.
pub fn move_paddle(paddle: &mut Paddle, up: bool, down: bool)
    requires
        old(paddle).wf(),
    ensures
        *final(paddle) == paddle_step(*old(paddle), up, down),
        final(paddle).wf(),
{
    let mut offset: i64 = 0;
    if up && paddle.y + PADDLE_HEIGHT / 2 < ARENA_HEIGHT / 2 {
        offset = offset + PADDLE_SPEED;
    }
    if down && paddle.y - PADDLE_HEIGHT / 2 > -ARENA_HEIGHT / 2 {
        offset = offset - PADDLE_SPEED;
    }
    paddle.y = paddle.y + offset;
}

/// Moves both paddles of `game` for one tick: the left one by its keys, the right one
/// by its own.
pub fn paddle_movement(keys: &HeldKeys, game: &mut Game)
    requires
        old(game).wf(),
    ensures
        *final(game) == (Game {
            left: paddle_step(old(game).left, keys.left_up, keys.left_down),
            right: paddle_step(old(game).right, keys.right_up, keys.right_down),
            ..*old(game)
        }),
        final(game).wf(),
{
    move_paddle(&mut game.left, keys.left_up, keys.left_down);
    move_paddle(&mut game.right, keys.right_up, keys.right_down);
}

/// A paddle stays within one step beyond either wall, however long keys are held.
pub proof fn lemma_paddle_stays_in_reach(p: Paddle, up: bool, down: bool, n: nat)
    requires
        p.wf(),
    ensures
        paddle_steps(p, up, down, n).wf(),
        paddle_steps(p, up, down, n).top() < ARENA_HEIGHT / 2 + PADDLE_SPEED,
        paddle_steps(p, up, down, n).bottom() > -ARENA_HEIGHT / 2 - PADDLE_SPEED,
        paddle_steps(p, up, down, n).side == p.side,
    decreases n,
{
    if n > 0 {
        lemma_paddle_stays_in_reach(p, up, down, (n - 1) as nat);
    }
}

/// Holding "up" never takes the paddle's top above the top wall, from any position
/// below the wall whose distance to it is a whole number of steps.
pub proof fn lemma_up_clamped(p: Paddle, n: nat)
    requires
        p.wf(),
        p.top() <= ARENA_HEIGHT / 2,
        (ARENA_HEIGHT / 2 - p.top()) % (PADDLE_SPEED as int) == 0,
    ensures
        paddle_steps(p, true, false, n).top() <= ARENA_HEIGHT / 2,
        (ARENA_HEIGHT / 2 - paddle_steps(p, true, false, n).top()) % (PADDLE_SPEED as int) == 0,
    decreases n,
{
    if n > 0 {
        lemma_up_clamped(p, (n - 1) as nat);
        lemma_paddle_stays_in_reach(p, true, false, (n - 1) as nat);
    }
}

/// Holding "down" never takes the paddle's bottom below the bottom wall, from any
/// position above the wall whose distance to it is a whole number of steps.
pub proof fn lemma_down_clamped(p: Paddle, n: nat)
    requires
        p.wf(),
        p.bottom() >= -ARENA_HEIGHT / 2,
        (p.bottom() + ARENA_HEIGHT / 2) % (PADDLE_SPEED as int) == 0,
    ensures
        paddle_steps(p, false, true, n).bottom() >= -ARENA_HEIGHT / 2,
        (paddle_steps(p, false, true, n).bottom() + ARENA_HEIGHT / 2) % (PADDLE_SPEED as int) == 0,
    decreases n,
{
    if n > 0 {
        lemma_down_clamped(p, (n - 1) as nat);
        lemma_paddle_stays_in_reach(p, false, true, (n - 1) as nat);
    }
}

// ---------------------------------------------------------------------------
// Ball movement
// ---------------------------------------------------------------------------

/// The rectangle a paddle presents to the ball.
pub open spec fn paddle_box(p: Paddle) -> Collider {
    Collider {
        left: (home_x(p.side) - PADDLE_WIDTH / 2) as i64,
        right: (home_x(p.side) + PADDLE_WIDTH / 2) as i64,
        bottom: (p.y - PADDLE_HEIGHT / 2) as i64,
        top: (p.y + PADDLE_HEIGHT / 2) as i64,
    }
}

/// The ball's centre lies strictly inside the paddle's rectangle.
pub open spec fn hits(b: Ball, p: Paddle) -> bool {
    &&& home_x(p.side) - PADDLE_WIDTH / 2 < b.x < home_x(p.side) + PADDLE_WIDTH / 2
    &&& p.bottom() < b.y < p.top()
}

/// Vertical speed given to a ball that meets a paddle `dy` above the paddle's centre:
/// `dy / PADDLE_HEIGHT * BALL_MAX_ANGLE_MULTIPLIER` arena units per tick, in sub-units,
/// rounded toward zero.
pub open spec fn deflection(dy: int) -> int {
    let scale = BALL_MAX_ANGLE_MULTIPLIER * UNIT;
    if dy >= 0 {
        dy * scale / (PADDLE_HEIGHT as int)
    } else {
        -((-dy) * scale / (PADDLE_HEIGHT as int))
    }
}

/// Horizontal velocity after the serve acceleration: the starting speed becomes the
/// full speed, in the same direction; any other speed is kept.
pub open spec fn accelerated(vx: int) -> int {
    if vx == STARTING_BALL_SPEED {
        BALL_SPEED as int
    } else if vx == -STARTING_BALL_SPEED {
        -BALL_SPEED
    } else {
        vx
    }
}

/// Step 1: a ball beyond either wall line has its vertical velocity inverted.
pub open spec fn after_walls(b: Ball) -> Ball {
    if b.y < -WALL_Y || b.y > WALL_Y {
        Ball { vy: (-b.vy) as i64, ..b }
    } else {
        b
    }
}

/// Step 2: a ball beyond the left end line gives the right side a point and is served
/// again up and to the right; one beyond the right end line gives the left side a
/// point and is served again down and to the left.
pub open spec fn after_end_lines(b: Ball) -> (Ball, Option<ScoreEvent>) {
    if b.x < -END_X {
        (Ball::served(), Some(ScoreEvent { side: Sides::Right }))
    } else if b.x > END_X {
        (
            Ball { x: 0, y: 0, vx: (-STARTING_BALL_SPEED) as i64, vy: (-STARTING_BALL_SPEED) as i64 },
            Some(ScoreEvent { side: Sides::Left }),
        )
    } else {
        (b, None)
    }
}

/// Step 3, for one paddle: a ball inside it is accelerated if it was still at its
/// starting speed, sent back horizontally, and re-aimed by where it met the paddle.
pub open spec fn after_paddle(b: Ball, p: Paddle) -> Ball {
    if hits(b, p) {
        Ball { vx: -accelerated(b.vx as int) as i64, vy: deflection(b.y - p.y) as i64, ..b }
    } else {
        b
    }
}

/// Step 4: the ball moves by its velocity.
pub open spec fn after_move(b: Ball) -> Ball {
    Ball { x: (b.x + b.vx) as i64, y: (b.y + b.vy) as i64, ..b }
}

/// One tick of the ball between the paddles `l` and `r`: the ball after the tick, and
/// the point made during it, if any.
pub open spec fn ball_step(b: Ball, l: Paddle, r: Paddle) -> (Ball, Option<ScoreEvent>) {
    let (served, event) = after_end_lines(after_walls(b));
    (after_move(after_paddle(after_paddle(served, l), r)), event)
}

/// Every field is far from the limits of `i64`.
spec fn moderate(b: Ball) -> bool {
    &&& abs(b.x as int) <= 1_000_000
    &&& abs(b.y as int) <= 1_000_000
    &&& abs(b.vx as int) <= BALL_SPEED
    &&& abs(b.vy as int) <= BALL_SPEED
}

impl Paddle {
    /// The horizontal centre of the paddle, fixed by its side.
    pub fn x(&self) -> (r: i64)
        ensures
            r == home_x(self.side),
    {
        match self.side {
            Sides::Left => -ARENA_WIDTH / 2 + PADDLE_OFFSET,
            Sides::Right => ARENA_WIDTH / 2 - PADDLE_OFFSET,
        }
    }

    /// The rectangle the paddle presents to the ball.
    pub fn collider(&self) -> (r: Collider)
        requires
            self.wf(),
        ensures
            r == paddle_box(*self),
    {
        let x = self.x();
        Collider {
            left: x - PADDLE_WIDTH / 2,
            right: x + PADDLE_WIDTH / 2,
            bottom: self.y - PADDLE_HEIGHT / 2,
            top: self.y + PADDLE_HEIGHT / 2,
        }
    }
}

/// A ball inside a paddle is never deflected at the full speed or faster.
pub proof fn lemma_deflection_bounded(dy: int)
    requires
        abs(dy) < PADDLE_HEIGHT / 2,
    ensures
        abs(deflection(dy)) < BALL_SPEED,
{
    let d = if dy >= 0 { dy } else { -dy };
    assert(0 <= d * 6000 / 50000 < 3000) by (nonlinear_arith)
        requires
            0 <= d < 25000,
    ;
}

/// The vertical speed given by a paddle met `dy` above its centre.
pub fn deflect(dy: i64) -> (r: i64)
    requires
        abs(dy as int) < PADDLE_HEIGHT / 2,
    ensures
        r == deflection(dy as int),
        abs(r as int) < BALL_SPEED,
{
    proof {
        lemma_deflection_bounded(dy as int);
    }
    let scale: i64 = BALL_MAX_ANGLE_MULTIPLIER * UNIT;
    if dy >= 0 {
        dy * scale / PADDLE_HEIGHT
    } else {
        -((-dy) * scale / PADDLE_HEIGHT)
    }
}

fn bounce_off_walls(ball: &mut Ball)
    requires
        moderate(*old(ball)),
    ensures
        *final(ball) == after_walls(*old(ball)),
        moderate(*final(ball)),
{
    if ball.y < -WALL_Y || ball.y > WALL_Y {
        ball.vy = -ball.vy;
    }
}

fn check_end_lines(ball: &mut Ball) -> (r: Option<ScoreEvent>)
    requires
        moderate(*old(ball)),
    ensures
        (*final(ball), r) == after_end_lines(*old(ball)),
        moderate(*final(ball)),
{
    if ball.x < -END_X {
        *ball = Ball { x: 0, y: 0, vx: STARTING_BALL_SPEED, vy: STARTING_BALL_SPEED };
        Some(ScoreEvent { side: Sides::Right })
    } else if ball.x > END_X {
        *ball = Ball { x: 0, y: 0, vx: -STARTING_BALL_SPEED, vy: -STARTING_BALL_SPEED };
        Some(ScoreEvent { side: Sides::Left })
    } else {
        None
    }
}

fn bounce_off_paddle(ball: &mut Ball, paddle: &Paddle)
    requires
        moderate(*old(ball)),
        paddle.wf(),
    ensures
        *final(ball) == after_paddle(*old(ball), *paddle),
        moderate(*final(ball)),
{
    let area = paddle.collider();
    if area.contains(ball.x, ball.y) {
        if ball.vx == STARTING_BALL_SPEED {
            ball.vx = BALL_SPEED;
        } else if ball.vx == -STARTING_BALL_SPEED {
            ball.vx = -BALL_SPEED;
        }
        ball.vx = -ball.vx;
        ball.vy = deflect(ball.y - paddle.y);
    }
}

fn move_ball(ball: &mut Ball)
    requires
        moderate(*old(ball)),
    ensures
        *final(ball) == after_move(*old(ball)),
{
    ball.x = ball.x + ball.vx;
    ball.y = ball.y + ball.vy;
}

/// One paddle bounce, on a ball whose speeds are in range, keeps them in range and
/// leaves the ball where it was.
proof fn lemma_after_paddle_speeds(b: Ball, p: Paddle)
    requires
        abs(b.vx as int) == STARTING_BALL_SPEED || abs(b.vx as int) == BALL_SPEED,
        abs(b.vy as int) <= BALL_SPEED,
        p.wf(),
    ensures
        abs(after_paddle(b, p).vx as int) == STARTING_BALL_SPEED || abs(after_paddle(b, p).vx as int) == BALL_SPEED,
        abs(after_paddle(b, p).vy as int) <= BALL_SPEED,
        after_paddle(b, p).x == b.x,
        after_paddle(b, p).y == b.y,
        hits(b, p) ==> abs(b.y as int) < paddle_reach() + PADDLE_HEIGHT / 2,
        hits(b, p) ==> after_paddle(b, p).vy == deflection(b.y - p.y),
{
    if hits(b, p) {
        lemma_deflection_bounded(b.y - p.y);
    }
}

/// A tick keeps a well-formed ball well-formed between well-formed paddles.
pub proof fn lemma_ball_step_wf(b: Ball, l: Paddle, r: Paddle)
    requires
        b.wf(),
        l.wf(),
        r.wf(),
    ensures
        ball_step(b, l, r).0.wf(),
{
    let w = after_walls(b);
    let (s, e) = after_end_lines(w);
    let p1 = after_paddle(s, l);
    let p2 = after_paddle(p1, r);
    lemma_after_paddle_speeds(s, l);
    lemma_after_paddle_speeds(p1, r);
    if e.is_none() && !hits(s, l) && !hits(p1, r) {
        assert(p2 == w);
    }
}

/// Runs the ball for one tick between the paddles of `game`; returns the point made
/// during the tick, if any.
pub fn ball_movement(game: &mut Game) -> (r: Option<ScoreEvent>)
    requires
        old(game).wf(),
    ensures
        (final(game).ball, r) == ball_step(old(game).ball, old(game).left, old(game).right),
        *final(game) == (Game { ball: final(game).ball, ..*old(game) }),
        final(game).wf(),
{
    proof {
        lemma_ball_step_wf(game.ball, game.left, game.right);
    }
    bounce_off_walls(&mut game.ball);
    let event = check_end_lines(&mut game.ball);
    bounce_off_paddle(&mut game.ball, &game.left);
    bounce_off_paddle(&mut game.ball, &game.right);
    move_ball(&mut game.ball);
    event
}

/// A ball past the top wall line and still rising leaves the tick falling at the same
/// speed (and one past the bottom wall line and still falling leaves it rising), as
/// long as it is between the end lines and inside neither paddle.
pub proof fn lemma_wall_reflection(b: Ball, l: Paddle, r: Paddle)
    requires
        b.wf(),
        (b.y > WALL_Y && b.vy > 0) || (b.y < -WALL_Y && b.vy < 0),
        -END_X <= b.x <= END_X,
        !hits(b, l),
        !hits(b, r),
    ensures
        ball_step(b, l, r).0.vy == -b.vy,
        ball_step(b, l, r).1.is_none(),
{
}

/// The first paddle contact of a rally raises the horizontal speed to the full speed;
/// a contact at the full speed only reverses the direction.
pub proof fn lemma_serve_acceleration(b: Ball, p: Paddle)
    requires
        b.wf(),
        hits(b, p),
    ensures
        abs(after_paddle(b, p).vx as int) == BALL_SPEED,
        b.vx == STARTING_BALL_SPEED ==> after_paddle(b, p).vx == -BALL_SPEED,
        b.vx == -STARTING_BALL_SPEED ==> after_paddle(b, p).vx == BALL_SPEED,
        abs(b.vx as int) == BALL_SPEED ==> after_paddle(b, p).vx == -b.vx,
{
}

/// Once a rally has reached the full speed it keeps it, tick after tick, until a point
/// is made: later contacts do not accelerate the ball again.
pub proof fn lemma_rally_keeps_speed(b: Ball, l: Paddle, r: Paddle)
    requires
        b.wf(),
        abs(b.vx as int) == BALL_SPEED,
        ball_step(b, l, r).1.is_none(),
    ensures
        abs(ball_step(b, l, r).0.vx as int) == BALL_SPEED,
{
}

/// A ball meeting the left paddle and one meeting the right paddle at the same offset
/// from the paddle's centre get the same vertical speed, `deflection` of that offset.
pub proof fn lemma_deflection_either_paddle(b1: Ball, l: Paddle, b2: Ball, r: Paddle)
    requires
        l.side == Sides::Left,
        r.side == Sides::Right,
        hits(b1, l),
        hits(b2, r),
        b1.y - l.y == b2.y - r.y,
    ensures
        after_paddle(b1, l).vy == after_paddle(b2, r).vy,
        after_paddle(b1, l).vy == deflection(b1.y - l.y),
{
    lemma_deflection_bounded(b1.y - l.y);
}

/// A tick in which the ball is inside a paddle (and between the end lines) leaves it
/// with the vertical speed `deflection` of its offset from that paddle's centre,
/// whether or not it was also beyond a wall line, and moves it by that speed.
pub proof fn lemma_paddle_reaims(b: Ball, l: Paddle, r: Paddle)
    requires
        b.wf(),
        l.side == Sides::Left,
        r.side == Sides::Right,
        -END_X <= b.x <= END_X,
        hits(b, l) || hits(b, r),
    ensures
        ball_step(b, l, r).1.is_none(),
        hits(b, l) ==> ball_step(b, l, r).0.vy == deflection(b.y - l.y),
        hits(b, r) ==> ball_step(b, l, r).0.vy == deflection(b.y - r.y),
        ball_step(b, l, r).0.y == b.y + ball_step(b, l, r).0.vy,
        ball_step(b, l, r).0.x == b.x + ball_step(b, l, r).0.vx,
        abs(ball_step(b, l, r).0.vx as int) == BALL_SPEED,
{
    if hits(b, l) {
        lemma_deflection_bounded(b.y - l.y);
    } else {
        lemma_deflection_bounded(b.y - r.y);
    }
}

/// `deflection(dy)` is `dy / PADDLE_HEIGHT * BALL_MAX_ANGLE_MULTIPLIER` units, in
/// sub-units, rounded toward zero: within one sub-unit of the exact value, on its
/// side of zero.
pub proof fn lemma_deflection_rounding(dy: int)
    ensures
        dy >= 0 ==> deflection(dy) * PADDLE_HEIGHT <= dy * BALL_MAX_ANGLE_MULTIPLIER * UNIT
            < (deflection(dy) + 1) * PADDLE_HEIGHT,
        dy < 0 ==> (deflection(dy) - 1) * PADDLE_HEIGHT < dy * BALL_MAX_ANGLE_MULTIPLIER * UNIT
            <= deflection(dy) * PADDLE_HEIGHT,
        deflection(-dy) == -deflection(dy),
{
    let d = if dy >= 0 { dy } else { -dy };
    let q = d * 6000 / 50000;
    assert(q * 50000 <= d * 6000 < (q + 1) * 50000) by (nonlinear_arith)
        requires
            d >= 0,
            q == d * 6000 / 50000,
    ;
}

} // verus!
