use pong::geometry::{
    ARENA_HEIGHT, ARENA_WIDTH, BALL_SIZE, BALL_SPEED, PADDLE_HEIGHT, PADDLE_SPEED,
    STARTING_BALL_SPEED, UNIT,
};
use pong::{
    ball_movement, deflect, move_paddle, paddle_movement, score_logic, start_game, Ball,
    Collider, Game, HeldKeys, Paddle, Score, ScoreEvent, Sides,
};

const NO_KEYS: HeldKeys = HeldKeys { left_up: false, left_down: false, right_up: false, right_down: false };

fn served() -> Ball {
    Ball { x: 0, y: 0, vx: STARTING_BALL_SPEED, vy: STARTING_BALL_SPEED }
}

fn game_with_ball(ball: Ball) -> Game {
    let mut game = start_game(&Score { left: 0, right: 0 });
    game.ball = ball;
    game
}

#[test]
fn starting_speed_is_a_third_of_full_speed() {
    assert_eq!(STARTING_BALL_SPEED * 3, BALL_SPEED);
    assert_eq!(BALL_SPEED, 3 * UNIT);
}

#[test]
fn paddle_up_stops_within_one_step_of_top_wall() {
    let mut p = Paddle { side: Sides::Left, y: 0 };
    for _ in 0..500 {
        move_paddle(&mut p, true, false);
        assert!(p.y + PADDLE_HEIGHT / 2 < ARENA_HEIGHT / 2 + PADDLE_SPEED);
    }
    // 174 units is the last centre whose top is below the wall; one more step follows.
    assert_eq!(p.y, 177 * UNIT);
}

#[test]
fn paddle_up_from_aligned_position_never_passes_top_wall() {
    let mut p = Paddle { side: Sides::Right, y: UNIT };
    for _ in 0..500 {
        move_paddle(&mut p, true, false);
        assert!(p.y + PADDLE_HEIGHT / 2 <= ARENA_HEIGHT / 2);
    }
    assert_eq!(p.y + PADDLE_HEIGHT / 2, ARENA_HEIGHT / 2);
}

#[test]
fn paddle_down_from_aligned_position_never_passes_bottom_wall() {
    let mut p = Paddle { side: Sides::Left, y: -UNIT };
    for _ in 0..500 {
        move_paddle(&mut p, false, true);
        assert!(p.y - PADDLE_HEIGHT / 2 >= -ARENA_HEIGHT / 2);
    }
    assert_eq!(p.y - PADDLE_HEIGHT / 2, -ARENA_HEIGHT / 2);
}

#[test]
fn paddle_down_stops_within_one_step_of_bottom_wall() {
    let mut p = Paddle { side: Sides::Right, y: 0 };
    for _ in 0..500 {
        move_paddle(&mut p, false, true);
        assert!(p.y - PADDLE_HEIGHT / 2 > -ARENA_HEIGHT / 2 - PADDLE_SPEED);
    }
    assert_eq!(p.y, -177 * UNIT);
}

#[test]
fn paddle_at_wall_still_moves_away() {
    let mut p = Paddle { side: Sides::Left, y: 175 * UNIT };
    move_paddle(&mut p, true, false);
    assert_eq!(p.y, 175 * UNIT);
    move_paddle(&mut p, true, true);
    assert_eq!(p.y, 172 * UNIT);
}

#[test]
fn both_keys_held_cancel_out() {
    let mut p = Paddle { side: Sides::Left, y: 10 * UNIT };
    move_paddle(&mut p, true, true);
    assert_eq!(p.y, 10 * UNIT);
}

#[test]
fn paddle_movement_uses_each_sides_keys() {
    let mut game = start_game(&Score { left: 0, right: 0 });
    let keys = HeldKeys { left_up: true, left_down: false, right_up: false, right_down: true };
    paddle_movement(&keys, &mut game);
    assert_eq!(game.left.y, PADDLE_SPEED);
    assert_eq!(game.right.y, -PADDLE_SPEED);
    assert_eq!(game.ball, served());
}

#[test]
fn paddle_positions_and_colliders() {
    let l = Paddle { side: Sides::Left, y: 0 };
    let r = Paddle { side: Sides::Right, y: 20 * UNIT };
    assert_eq!(l.x(), -ARENA_WIDTH / 2 + 50 * UNIT);
    assert_eq!(r.x(), ARENA_WIDTH / 2 - 50 * UNIT);
    assert_eq!(
        r.collider(),
        Collider { left: 345 * UNIT, right: 355 * UNIT, bottom: -5 * UNIT, top: 45 * UNIT }
    );
}

#[test]
fn collider_contains_is_strict() {
    let c = Collider { left: 0, right: 10, bottom: 0, top: 10 };
    assert!(c.contains(5, 5));
    assert!(!c.contains(0, 5));
    assert!(!c.contains(10, 5));
    assert!(!c.contains(5, 0));
    assert!(!c.contains(5, 10));
}

#[test]
fn wall_reflection_top() {
    let eps = 1;
    let y = ARENA_HEIGHT / 2 - BALL_SIZE / 2 + eps;
    let mut game = game_with_ball(Ball { x: 0, y, vx: STARTING_BALL_SPEED, vy: 2 * UNIT });
    let event = ball_movement(&mut game);
    assert_eq!(event, None);
    assert_eq!(game.ball.vy, -2 * UNIT);
    assert_eq!(game.ball.y, y - 2 * UNIT);
    assert_eq!(game.ball.x, STARTING_BALL_SPEED);
}

#[test]
fn wall_reflection_bottom() {
    let y = -(ARENA_HEIGHT / 2 - BALL_SIZE / 2) - 1;
    let mut game = game_with_ball(Ball { x: 0, y, vx: -BALL_SPEED, vy: -UNIT });
    assert_eq!(ball_movement(&mut game), None);
    assert_eq!(game.ball.vy, UNIT);
    assert_eq!(game.ball.vx, -BALL_SPEED);
}

#[test]
fn ball_on_wall_line_is_not_reflected() {
    let y = ARENA_HEIGHT / 2 - BALL_SIZE / 2;
    let mut game = game_with_ball(Ball { x: 0, y, vx: BALL_SPEED, vy: UNIT });
    ball_movement(&mut game);
    assert_eq!(game.ball.vy, UNIT);
}

#[test]
fn ball_past_left_end_line_scores_for_right() {
    let mut game = game_with_ball(Ball { x: -ARENA_WIDTH / 2 - UNIT, y: 7 * UNIT, vx: -BALL_SPEED, vy: UNIT });
    let event = ball_movement(&mut game);
    assert_eq!(event, Some(ScoreEvent { side: Sides::Right }));
    // served from the centre, then moved by one tick
    assert_eq!(game.ball, Ball { x: STARTING_BALL_SPEED, y: STARTING_BALL_SPEED, vx: STARTING_BALL_SPEED, vy: STARTING_BALL_SPEED });
}

#[test]
fn ball_past_right_end_line_scores_for_left() {
    let mut game = game_with_ball(Ball { x: ARENA_WIDTH / 2 + UNIT, y: 0, vx: BALL_SPEED, vy: UNIT });
    let event = ball_movement(&mut game);
    assert_eq!(event, Some(ScoreEvent { side: Sides::Left }));
    assert_eq!(game.ball, Ball { x: -STARTING_BALL_SPEED, y: -STARTING_BALL_SPEED, vx: -STARTING_BALL_SPEED, vy: -STARTING_BALL_SPEED });
}

#[test]
fn first_contact_accelerates_then_only_reverses() {
    // right paddle at home, ball inside it moving right at starting speed
    let mut game = game_with_ball(Ball { x: 346 * UNIT, y: 0, vx: STARTING_BALL_SPEED, vy: STARTING_BALL_SPEED });
    assert_eq!(ball_movement(&mut game), None);
    assert_eq!(game.ball.vx, -BALL_SPEED);
    assert_eq!(game.ball.x, 343 * UNIT);
    // later contact with the left paddle at full speed
    game.ball = Ball { x: -346 * UNIT, y: 0, vx: -BALL_SPEED, vy: 0 };
    ball_movement(&mut game);
    assert_eq!(game.ball.vx, BALL_SPEED);
    // and again with the right paddle
    game.ball = Ball { x: 346 * UNIT, y: 0, vx: BALL_SPEED, vy: 0 };
    ball_movement(&mut game);
    assert_eq!(game.ball.vx, -BALL_SPEED);
}

#[test]
fn contact_at_starting_speed_moving_left_accelerates() {
    let mut game = game_with_ball(Ball { x: -346 * UNIT, y: 0, vx: -STARTING_BALL_SPEED, vy: 0 });
    ball_movement(&mut game);
    assert_eq!(game.ball.vx, BALL_SPEED);
}

#[test]
fn deflection_formula_same_for_both_paddles() {
    let dy_units: f64 = 10.0;
    let expected = (dy_units / 50.0 * 6.0 * UNIT as f64) as i64;
    let mut left = game_with_ball(Ball { x: -350 * UNIT, y: 10 * UNIT, vx: -BALL_SPEED, vy: 0 });
    ball_movement(&mut left);
    let mut right = game_with_ball(Ball { x: 350 * UNIT, y: 10 * UNIT, vx: BALL_SPEED, vy: 0 });
    ball_movement(&mut right);
    assert_eq!(left.ball.vy, expected);
    assert_eq!(right.ball.vy, expected);
    assert_eq!(expected, 1200);
}

#[test]
fn deflection_uses_offset_from_moved_paddle() {
    let mut game = game_with_ball(Ball { x: 350 * UNIT, y: 0, vx: BALL_SPEED, vy: UNIT });
    game.right.y = 20 * UNIT;
    ball_movement(&mut game);
    assert_eq!(game.ball.vy, -2400);
    assert_eq!(game.ball.vx, -BALL_SPEED);
}

#[test]
fn deflect_values() {
    assert_eq!(deflect(0), 0);
    assert_eq!(deflect(25 * UNIT - 1), 2999);
    assert_eq!(deflect(-(25 * UNIT - 1)), -2999);
    assert_eq!(deflect(12_345), 1481);
    assert_eq!(deflect(-12_345), -1481);
    assert_eq!(deflect(8), 0);
    assert_eq!(deflect(-9), -1);
}

#[test]
fn paddle_bounce_overrides_wall_bounce() {
    // paddle pushed up to its highest reach, ball beyond the wall line inside it
    let mut game = game_with_ball(Ball { x: 350 * UNIT, y: 196 * UNIT, vx: BALL_SPEED, vy: UNIT });
    game.right.y = 177 * UNIT;
    ball_movement(&mut game);
    assert_eq!(game.ball.vy, deflect(19 * UNIT));
    assert!(game.ball.vy > 0);
}

#[test]
fn score_logic_without_event_changes_nothing() {
    let mut score = Score { left: 2, right: 5 };
    let mut game = start_game(&score);
    game.ball = Ball { x: 10, y: 20, vx: BALL_SPEED, vy: -UNIT };
    game.left.y = 30 * UNIT;
    let before = game;
    score_logic(None, &mut score, &mut game);
    assert_eq!(score, Score { left: 2, right: 5 });
    assert_eq!(game, before);
}

#[test]
fn score_logic_left_point_resets_rally() {
    let mut score = Score { left: 2, right: 5 };
    let mut game = start_game(&score);
    game.ball = Ball { x: 10, y: 20, vx: BALL_SPEED, vy: -UNIT };
    game.left.y = 30 * UNIT;
    game.right.y = -30 * UNIT;
    score_logic(Some(ScoreEvent { side: Sides::Left }), &mut score, &mut game);
    assert_eq!(score, Score { left: 3, right: 5 });
    assert_eq!(game.left_text.value, 3);
    assert_eq!(game.right_text.value, 5);
    assert_eq!(game.ball, served());
    assert_eq!(game.left, Paddle { side: Sides::Left, y: 0 });
    assert_eq!(game.right, Paddle { side: Sides::Right, y: 0 });
}

#[test]
fn score_logic_right_point_updates_right_text_only() {
    let mut score = Score { left: 0, right: 0 };
    let mut game = start_game(&score);
    score_logic(Some(ScoreEvent { side: Sides::Right }), &mut score, &mut game);
    assert_eq!(score, Score { left: 0, right: 1 });
    assert_eq!(game.right_text.value, 1);
    assert_eq!(game.left_text.value, 0);
}

#[test]
fn start_game_shows_score_and_serves() {
    let game = start_game(&Score { left: 4, right: 9 });
    assert_eq!(game.left_text.value, 4);
    assert_eq!(game.right_text.value, 9);
    assert_eq!(game.left_text.side, Sides::Left);
    assert_eq!(game.right_text.side, Sides::Right);
    assert_eq!(game.ball, served());
    assert_eq!(game.left.y, 0);
    assert_eq!(game.right.y, 0);
    let _ = NO_KEYS;
}

#[test]
fn score_logic_right_point_with_left_counter_at_max() {
    let mut score = Score { left: u32::MAX, right: 7 };
    let mut game = start_game(&score);
    game.ball = Ball { x: -10, y: 20, vx: -BALL_SPEED, vy: UNIT };
    game.right.y = 12 * UNIT;
    score_logic(Some(ScoreEvent { side: Sides::Right }), &mut score, &mut game);
    assert_eq!(score, Score { left: u32::MAX, right: 8 });
    assert_eq!(game.right_text.value, 8);
    assert_eq!(game.left_text.value, u32::MAX);
    assert_eq!(game.ball, served());
    assert_eq!(game.right, Paddle { side: Sides::Right, y: 0 });
}

#[test]
fn score_logic_left_point_with_right_counter_at_max() {
    let mut score = Score { left: 0, right: u32::MAX };
    let mut game = start_game(&score);
    score_logic(Some(ScoreEvent { side: Sides::Left }), &mut score, &mut game);
    assert_eq!(score, Score { left: 1, right: u32::MAX });
    assert_eq!(game.ball, served());
}

#[test]
fn score_logic_without_event_at_max_counters() {
    let mut score = Score { left: u32::MAX, right: u32::MAX };
    let mut game = start_game(&score);
    let before = game;
    score_logic(None, &mut score, &mut game);
    assert_eq!(score, Score { left: u32::MAX, right: u32::MAX });
    assert_eq!(game, before);
}

#[test]
fn paddle_reaim_overrides_wall_flip() {
    // ball beyond the top wall line and inside the raised left paddle
    let mut game = game_with_ball(Ball { x: -350 * UNIT, y: 196 * UNIT, vx: -BALL_SPEED, vy: 2 * UNIT });
    game.left.y = 177 * UNIT;
    assert_eq!(ball_movement(&mut game), None);
    assert_eq!(game.ball.vy, deflect(19 * UNIT));
    assert_eq!(game.ball.vy, 2280);
    assert_eq!(game.ball.y, 196 * UNIT + 2280);
    assert_eq!(game.ball.vx, BALL_SPEED);
}
