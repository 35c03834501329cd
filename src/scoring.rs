use vstd::prelude::*;

use crate::entities::{Ball, Game, HeldKeys, Paddle, Score, ScoreEvent, ScoreText, Sides};
use crate::geometry::{abs, BALL_SPEED, END_X, STARTING_BALL_SPEED};
use crate::physics::{after_end_lines, ball_step, lemma_rally_keeps_speed, paddle_step};

verus! {

/// A match as it starts, or as it resumes after a point: both paddles at home, the
/// ball served from the centre, and the texts showing `score`.
pub open spec fn fresh_game(score: Score) -> Game {
    Game {
        left: Paddle::home(Sides::Left),
        right: Paddle::home(Sides::Right),
        ball: Ball::served(),
        left_text: ScoreText { side: Sides::Left, value: score.left },
        right_text: ScoreText { side: Sides::Right, value: score.right },
    }
}

/// The match after a point: both paddles at home, the ball served from the centre,
/// and the scorer's text showing the scorer's counter in `score`.
pub open spec fn reset_after_point(game: Game, side: Sides, score: Score) -> Game {
    Game {
        left: Paddle::home(Sides::Left),
        right: Paddle::home(Sides::Right),
        ball: Ball::served(),
        left_text: if side == Sides::Left {
            ScoreText { side: Sides::Left, value: score.left }
        } else {
            game.left_text
        },
        right_text: if side == Sides::Right {
            ScoreText { side: Sides::Right, value: score.right }
        } else {
            game.right_text
        },
    }
}

/// What a pending point does: the scorer's counter goes up by one, the ball is served
/// again and both paddles go home; with no point nothing changes.
pub open spec fn score_step(event: Option<ScoreEvent>, score: Score, game: Game) -> (Score, Game) {
    match event {
        None => (score, game),
        Some(e) => {
            let s = score.add_point(e.side);
            (s, reset_after_point(game, e.side, s))
        },
    }
}

/// One tick of a match: paddles, then ball, then scoring. Gives the match and score
/// after the tick, and the point made during it.
pub open spec fn play_step(game: Game, score: Score, keys: HeldKeys) -> (Game, Score, Option<ScoreEvent>) {
    let moved = Game {
        left: paddle_step(game.left, keys.left_up, keys.left_down),
        right: paddle_step(game.right, keys.right_up, keys.right_down),
        ..game
    };
    let (ball, event) = ball_step(moved.ball, moved.left, moved.right);
    let (s, g) = score_step(event, score, Game { ball, ..moved });
    (g, s, event)
}

/// The point that the next tick makes with `ball` in play: the end lines decide it
/// before anything moves.
pub open spec fn pending_point(ball: Ball) -> Option<ScoreEvent> {
    after_end_lines(ball).1
}

/// Spawns what a match is made of, showing `score`.
pub fn start_game(score: &Score) -> (r: Game)
    ensures
        r == fresh_game(*score),
        r.wf(),
        r.shows(*score),
{
    Game {
        left: Paddle { side: Sides::Left, y: 0 },
        right: Paddle { side: Sides::Right, y: 0 },
        ball: Ball { x: 0, y: 0, vx: STARTING_BALL_SPEED, vy: STARTING_BALL_SPEED },
        left_text: ScoreText { side: Sides::Left, value: score.left },
        right_text: ScoreText { side: Sides::Right, value: score.right },
    }
}

/// Consumes the point made during the tick, if any: the scorer's counter and text go
/// up by one, the ball is served again from the centre and both paddles go home.
pub fn score_logic(event: Option<ScoreEvent>, score: &mut Score, game: &mut Game)
    requires
        old(score).can_score(event),
        old(game).wf(),
    ensures
        (*final(score), *final(game)) == score_step(event, *old(score), *old(game)),
        final(game).wf(),
        old(game).shows(*old(score)) ==> final(game).shows(*final(score)),
{
    match event {
        None => {},
        Some(e) => {
            match e.side {
                Sides::Left => {
                    score.left = score.left + 1;
                    game.left_text.value = score.left;
                },
                Sides::Right => {
                    score.right = score.right + 1;
                    game.right_text.value = score.right;
                },
            }
            game.ball = Ball { x: 0, y: 0, vx: STARTING_BALL_SPEED, vy: STARTING_BALL_SPEED };
            game.left = Paddle { side: Sides::Left, y: 0 };
            game.right = Paddle { side: Sides::Right, y: 0 };
        },
    }
}

/// A ball past the left end line gives the right side exactly one point, and the tick
/// ends with the ball served again from the centre and both paddles at home.
pub proof fn lemma_end_line_scores(game: Game, score: Score, keys: HeldKeys)
    requires
        game.wf(),
        score.right < u32::MAX,
        game.ball.x < -END_X,
    ensures
        play_step(game, score, keys).2 == Some(ScoreEvent { side: Sides::Right }),
        play_step(game, score, keys).1 == (Score { right: (score.right + 1) as u32, ..score }),
        play_step(game, score, keys).0.ball == Ball::served(),
        play_step(game, score, keys).0.left == Paddle::home(Sides::Left),
        play_step(game, score, keys).0.right == Paddle::home(Sides::Right),
        play_step(game, score, keys).0.right_text.value == play_step(game, score, keys).1.right,
{
}

/// The same on the other side: a ball past the right end line gives the left side
/// exactly one point and a fresh serve.
pub proof fn lemma_right_end_line_scores(game: Game, score: Score, keys: HeldKeys)
    requires
        game.wf(),
        score.left < u32::MAX,
        game.ball.x > END_X,
    ensures
        play_step(game, score, keys).2 == Some(ScoreEvent { side: Sides::Left }),
        play_step(game, score, keys).1 == (Score { left: (score.left + 1) as u32, ..score }),
        play_step(game, score, keys).0.ball == Ball::served(),
        play_step(game, score, keys).0.left == Paddle::home(Sides::Left),
        play_step(game, score, keys).0.right == Paddle::home(Sides::Right),
        play_step(game, score, keys).0.left_text.value == play_step(game, score, keys).1.left,
{
}

/// A tick of a match keeps it well-formed and its texts showing the score.
pub proof fn lemma_play_step_wf(game: Game, score: Score, keys: HeldKeys)
    requires
        game.wf(),
        game.shows(score),
        score.can_score(pending_point(game.ball)),
    ensures
        play_step(game, score, keys).0.wf(),
        play_step(game, score, keys).0.shows(play_step(game, score, keys).1),
{
    let moved = Game {
        left: paddle_step(game.left, keys.left_up, keys.left_down),
        right: paddle_step(game.right, keys.right_up, keys.right_down),
        ..game
    };
    crate::physics::lemma_ball_step_wf(moved.ball, moved.left, moved.right);
}

/// Ticks of a match with the given keys, one element per tick, stopping at the first
/// point: the match and score at the end, and whether a point was made.
pub open spec fn rally(game: Game, score: Score, keys: Seq<HeldKeys>) -> (Game, Score, bool)
    decreases keys.len(),
{
    if keys.len() == 0 {
        (game, score, false)
    } else {
        let (g, s, scored) = rally(game, score, keys.drop_last());
        if scored {
            (g, s, true)
        } else {
            let (g2, s2, e) = play_step(g, s, keys.last());
            (g2, s2, e.is_some())
        }
    }
}

/// Once a ball has reached the full speed, it keeps it for the rest of the rally,
/// whatever the players do: no later paddle contact accelerates it again.
pub proof fn lemma_rally_keeps_full_speed(game: Game, score: Score, keys: Seq<HeldKeys>)
    requires
        game.wf(),
        game.shows(score),
        abs(game.ball.vx as int) == BALL_SPEED,
        !rally(game, score, keys).2,
    ensures
        abs(rally(game, score, keys).0.ball.vx as int) == BALL_SPEED,
        rally(game, score, keys).0.wf(),
        rally(game, score, keys).0.shows(score),
        rally(game, score, keys).1 == score,
    decreases keys.len(),
{
    if keys.len() > 0 {
        lemma_rally_keeps_full_speed(game, score, keys.drop_last());
        let (g, s, scored) = rally(game, score, keys.drop_last());
        let k = keys.last();
        let moved = Game {
            left: paddle_step(g.left, k.left_up, k.left_down),
            right: paddle_step(g.right, k.right_up, k.right_down),
            ..g
        };
        lemma_play_step_wf(g, s, k);
        lemma_rally_keeps_speed(moved.ball, moved.left, moved.right);
    }
}

} // verus!
