use vstd::prelude::*;

use crate::entities::{Ball, Game, HeldKeys, Paddle, Score, ScoreEvent, Sides};
use crate::physics::{ball_movement, paddle_movement};
use crate::geometry::END_X;
use crate::scoring::{fresh_game, lemma_play_step_wf, pending_point, play_step, score_logic, start_game};

verus! {

/// Which screen is active. Only the systems of the active state run.
#[derive(Clone, Copy, Debug, PartialEq, Eq, Structural)]
pub enum GameState {
    Menu,
    Singleplayer,
    /// Reserved: entering it starts nothing.
    Multiplayer,
}

/// What a menu button does.
#[derive(Clone, Copy, Debug, PartialEq, Eq, Structural)]
pub enum ButtonType {
    Singleplayer,
    Multiplayer,
    Quit,
}

/// A widget of the menu screen.
#[derive(Clone, Copy, Debug, PartialEq, Eq, Structural)]
pub struct Button {
    pub button_type: ButtonType,
}

/// The buttons the menu screen shows, top to bottom.
pub open spec fn menu_buttons() -> Seq<Button> {
    seq![
        Button { button_type: ButtonType::Singleplayer },
        Button { button_type: ButtonType::Multiplayer },
        Button { button_type: ButtonType::Quit },
    ]
}

/// The whole session: the active state, the score (kept across matches), the running
/// match, and the menu widgets on screen.
#[derive(Clone, Debug)]
pub struct Pong {
    pub state: GameState,
    pub score: Score,
    pub game: Option<Game>,
    pub menu: Vec<Button>,
}

impl Pong {
    /// A match exists exactly while playing, and then is well-formed and shows the
    /// score; the menu widgets exist exactly on the menu screen.
    pub open spec fn wf(&self) -> bool {
        &&& (self.state == GameState::Singleplayer) == self.game.is_some()
        &&& self.game matches Some(g) ==> g.wf() && g.shows(self.score)
        &&& self.state == GameState::Menu ==> self.menu@ == menu_buttons()
        &&& self.state != GameState::Menu ==> self.menu@.len() == 0
    }

    /// Nothing observable differs between the two sessions.
    pub open spec fn same(&self, other: Pong) -> bool {
        &&& self.state == other.state
        &&& self.score == other.score
        &&& self.game == other.game
        &&& self.menu@ == other.menu@
    }

    /// A session on the menu screen, with no points made yet.
    pub fn new() -> (r: Pong)
        ensures
            r.wf(),
            r.state == GameState::Menu,
            r.score == (Score { left: 0, right: 0 }),
            r.game.is_none(),
    {
        Pong { state: GameState::Menu, score: Score { left: 0, right: 0 }, game: None, menu: menu_widgets() }
    }

    /// What a tick does to the match and the score, and the point it makes: a tick of
    /// play while playing; nothing at all in any other state.
    pub open spec fn ticked(&self, keys: HeldKeys) -> (Option<Game>, Score, Option<ScoreEvent>) {
        if self.state == GameState::Singleplayer && self.game.is_some() {
            let (g, s, e) = play_step(self.game.unwrap(), self.score, keys);
            (Some(g), s, e)
        } else {
            (self.game, self.score, None)
        }
    }

    /// The point that the next tick may make can be added to the score.
    pub open spec fn spec_can_tick(&self) -> bool {
        self.state == GameState::Singleplayer && self.game.is_some()
            ==> self.score.can_score(pending_point(self.game.unwrap().ball))
    }

    /// Whether the next tick can run: false only while playing with the ball past an
    /// end line and the scorer's counter at its largest value.
    pub fn can_tick(&self) -> (r: bool)
        ensures
            r == self.spec_can_tick(),
    {
        if self.state != GameState::Singleplayer {
            return true;
        }
        match self.game {
            None => true,
            Some(game) => {
                if game.ball.x < -END_X {
                    self.score.right < u32::MAX
                } else if game.ball.x > END_X {
                    self.score.left < u32::MAX
                } else {
                    true
                }
            },
        }
    }

    /// One tick. While playing: paddles, then ball, then scoring, in that order; returns
    /// the point made during the tick. In any other state nothing runs.
    pub fn tick(&mut self, keys: &HeldKeys) -> (r: Option<ScoreEvent>)
        requires
            old(self).wf(),
            old(self).spec_can_tick(),
        ensures
            final(self).wf(),
            (final(self).game, final(self).score, r) == old(self).ticked(*keys),
            final(self).state == old(self).state,
            final(self).menu@ == old(self).menu@,
    {
        if self.state != GameState::Singleplayer {
            return None;
        }
        match self.game {
            None => None,
            Some(current) => {
                proof {
                    lemma_play_step_wf(current, self.score, *keys);
                }
                let mut game = current;
                paddle_movement(keys, &mut game);
                let event = ball_movement(&mut game);
                score_logic(event, &mut self.score, &mut game);
                self.game = Some(game);
                event
            },
        }
    }
}

/// The menu screen's widgets.
fn menu_widgets() -> (r: Vec<Button>)
    ensures
        r@ == menu_buttons(),
{
    let r = vec![
        Button { button_type: ButtonType::Singleplayer },
        Button { button_type: ButtonType::Multiplayer },
        Button { button_type: ButtonType::Quit },
    ];
    assert(r@ =~= menu_buttons());
    r
}

/// Tears down the menu widgets; does nothing if there are none.
pub fn close_menu(menu: &mut Vec<Button>)
    ensures
        final(menu)@.len() == 0,
{
    menu.clear();
}

/// Leaves the active state for `next`: leaving the menu tears its widgets down,
/// entering a match starts one showing the score, entering the menu tears the match
/// down and shows the widgets. The score is kept.
fn switch_state(pong: &mut Pong, next: GameState)
    requires
        old(pong).wf(),
        old(pong).state != next,
    ensures
        final(pong).wf(),
        final(pong).state == next,
        final(pong).score == old(pong).score,
        next == GameState::Singleplayer ==> final(pong).game == Some(fresh_game(old(pong).score)),
{
    close_menu(&mut pong.menu);
    pong.game = None;
    match next {
        GameState::Menu => {
            pong.menu = menu_widgets();
        },
        GameState::Singleplayer => {
            pong.game = Some(start_game(&pong.score));
        },
        GameState::Multiplayer => {},
    }
    pong.state = next;
}

/// Acts on a click on the menu screen. Returns whether the session is to end (the
/// "Quit" button); "Singleplayer" starts a match, "Multiplayer" enters its reserved
/// state. Off the menu screen, or with no click, nothing happens.
pub fn menu_system(pong: &mut Pong, clicked: Option<ButtonType>) -> (quit: bool)
    requires
        old(pong).wf(),
    ensures
        final(pong).wf(),
        quit == (old(pong).state == GameState::Menu && clicked == Some(ButtonType::Quit)),
        old(pong).state != GameState::Menu || clicked.is_none() || quit ==> final(pong).same(*old(pong)),
        old(pong).state == GameState::Menu && clicked == Some(ButtonType::Singleplayer) ==> {
            &&& final(pong).state == GameState::Singleplayer
            &&& final(pong).score == old(pong).score
            &&& final(pong).game == Some(fresh_game(old(pong).score))
            &&& final(pong).menu@.len() == 0
        },
        old(pong).state == GameState::Menu && clicked == Some(ButtonType::Multiplayer) ==> {
            &&& final(pong).state == GameState::Multiplayer
            &&& final(pong).score == old(pong).score
            &&& final(pong).game.is_none()
            &&& final(pong).menu@.len() == 0
        },
{
    if pong.state != GameState::Menu {
        return false;
    }
    match clicked {
        None => false,
        Some(ButtonType::Singleplayer) => {
            switch_state(pong, GameState::Singleplayer);
            false
        },
        Some(ButtonType::Multiplayer) => {
            switch_state(pong, GameState::Multiplayer);
            false
        },
        Some(ButtonType::Quit) => true,
    }
}

/// While playing, an escape press ends the match: back to the menu screen, with the
/// match torn down and the score kept. Otherwise nothing happens.
pub fn esc_check(pong: &mut Pong, escape_pressed: bool)
    requires
        old(pong).wf(),
    ensures
        final(pong).wf(),
        old(pong).state == GameState::Singleplayer && escape_pressed ==> {
            &&& final(pong).state == GameState::Menu
            &&& final(pong).score == old(pong).score
            &&& final(pong).game.is_none()
            &&& final(pong).menu@ == menu_buttons()
        },
        !(old(pong).state == GameState::Singleplayer && escape_pressed) ==> final(pong).same(*old(pong)),
{
    if pong.state == GameState::Singleplayer && escape_pressed {
        switch_state(pong, GameState::Menu);
    }
}

/// On the menu screen no match exists, so no paddle or ball does, and a tick, whatever
/// keys are held, moves nothing, scores nothing and raises no point; the match that "Singleplayer" starts from it (see
/// `menu_system`) keeps the score, serves the ball from the centre and has both
/// paddles at home.
pub proof fn lemma_menu_isolation(p: Pong, keys: HeldKeys)
    requires
        p.wf(),
        p.state == GameState::Menu,
    ensures
        p.game.is_none(),
        p.ticked(keys) == (None::<Game>, p.score, None::<ScoreEvent>),
        p.menu@ == menu_buttons(),
        fresh_game(p.score).ball == Ball::served(),
        fresh_game(p.score).left == Paddle::home(Sides::Left),
        fresh_game(p.score).right == Paddle::home(Sides::Right),
        fresh_game(p.score).shows(p.score),
        fresh_game(p.score).wf(),
{
}

} // verus!
