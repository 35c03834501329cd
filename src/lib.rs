//! Simulation core of a two-paddle Pong game: paddle and ball physics, scoring and
//! resets, and the menu / match state machine. Lengths are integers in fixed point
//! (see `geometry::UNIT`); a tick is one frame.
pub mod entities;
pub mod geometry;
pub mod physics;
pub mod scoring;
pub mod session;

pub use entities::{Ball, Game, HeldKeys, Paddle, Score, ScoreEvent, ScoreText, Sides};
pub use geometry::Collider;
pub use physics::{ball_movement, deflect, move_paddle, paddle_movement};
pub use scoring::{score_logic, start_game};
pub use session::{close_menu, esc_check, menu_system, Button, ButtonType, GameState, Pong};
