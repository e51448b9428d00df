use vstd::prelude::*;

use crate::app_state::{AnyState, AppState, StateTransition};
use crate::config::Config;
use crate::database::Database;
use crate::engine::{pool_phrases, EngineError};
use crate::event::Event;
use crate::game::{advance_rel, check_verdict, fresh_round, Game};
use crate::main_menu_state::{fresh_main_menu, MainMenuState};
use crate::quit_state::QuitState;
use crate::renderer::{logo_lines, Renderer};
use crate::text::{buffer_ok, buffer_pop, buffer_pop_char, buffer_push, buffer_push_char};

verus! {

/// Which part of the drill exchange the game screen is in: taking an
/// answer, showing the verdict, or reporting the round complete.
#[derive(Debug, Clone, Copy, PartialEq, Eq, Structural)]
pub enum GamePhase {
    Input,
    Feedback(bool),
    RoundEnd,
}

/// A game state as it looks right after entering the game: a round freshly
/// sampled from the store, nothing typed, in the input phase — or already
/// at the round-end screen when the store had nothing to offer.
pub open spec fn fresh_game_state(gs: GameState, config: Config, db: Database) -> bool {
    &&& gs.user_input is None
    &&& gs.renderer.config == config
    &&& gs.game.config == config
    &&& gs.game.db.records@ == db.records@
    &&& gs.game.recognized_phrases@.len() == 0
    &&& gs.game.unrecognized_phrases@.len() == (if config.phrases_per_round <= db.records@.len() {
        config.phrases_per_round as int
    } else {
        db.records@.len() as int
    })
    &&& (forall|k: int|
        0 <= k < gs.game.unrecognized_phrases@.len() ==> (
        #[trigger] gs.game.unrecognized_phrases@[k]).1 == 0)
    &&& pool_phrases(gs.game.unrecognized_phrases@).to_multiset().subset_of(
        db.records@.to_multiset(),
    )
    &&& gs.game_phase == (if gs.game.unrecognized_phrases@.len() > 0 {
        GamePhase::Input
    } else {
        GamePhase::RoundEnd
    })
}

/// The round is fully wound down: both pools empty, no phrase current.
pub open spec fn round_closed(gs: GameState) -> bool {
    &&& gs.game.unrecognized_phrases@.len() == 0
    &&& gs.game.recognized_phrases@.len() == 0
    &&& gs.game.current_phrase_idx is None
}

/// What submitting (Enter) does in each phase: an answer in the input
/// phase is judged and shown; the verdict in the feedback phase drives the
/// drill forward, ending the round once the pool empties; Enter at the
/// round-end screen starts the next round.
pub open spec fn game_submit_rel(pre: GameState, post: GameState, t: StateTransition) -> bool {
    &&& t is Stay
    &&& post.user_input is None
    &&& post.renderer == pre.renderer
    &&& (match pre.game_phase {
        GamePhase::Input => {
            &&& post.game == pre.game
            &&& post.game_phase == GamePhase::Feedback(
                match pre.user_input {
                    Some(s) => check_verdict(pre.game, s@),
                    None => false,
                },
            )
        },
        GamePhase::Feedback(is_correct) => {
            if is_correct && pre.game.unrecognized_phrases@.len() == 1 {
                &&& post.game.unrecognized_phrases@.len() == 0
                &&& post.game.recognized_phrases@.len() == 0
                &&& post.game.current_phrase_idx is None
                &&& post.game.config == pre.game.config
                &&& post.game.db == pre.game.db
                &&& post.game_phase == GamePhase::RoundEnd
            } else {
                &&& advance_rel(pre.game, is_correct, post.game, Ok::<(), EngineError>(()))
                &&& post.game_phase == GamePhase::Input
            }
        },
        GamePhase::RoundEnd => {
            &&& fresh_round(pre.game, post.game)
            &&& post.game_phase == (if post.game.unrecognized_phrases@.len() > 0 {
                GamePhase::Input
            } else {
                GamePhase::RoundEnd
            })
        },
    })
}

/// What a typed character does: buffered while answering, a `b` at the
/// round-end screen goes back to the main menu, and the feedback screen
/// ignores typing.
pub open spec fn game_char_rel(
    pre: GameState,
    c: char,
    config: Config,
    post: GameState,
    t: StateTransition,
) -> bool {
    match pre.game_phase {
        GamePhase::Input => {
            &&& t is Stay
            &&& post.game == pre.game
            &&& post.game_phase == pre.game_phase
            &&& post.renderer == pre.renderer
            &&& buffer_push(pre.user_input, c, post.user_input)
        },
        GamePhase::RoundEnd => {
            &&& post == pre
            &&& (if c == 'b' || c == 'B' {
                t matches StateTransition::Transition(s) && s matches AnyState::MainMenu(ms)
                    && fresh_main_menu(ms, config)
            } else {
                t is Stay
            })
        },
        GamePhase::Feedback(_) => post == pre && t is Stay,
    }
}

/// What erasing a character does: it edits the answer being typed, and
/// nothing anywhere else.
pub open spec fn game_remove_rel(pre: GameState, post: GameState, t: StateTransition) -> bool {
    &&& t is Stay
    &&& (match pre.game_phase {
        GamePhase::Input => {
            &&& post.game == pre.game
            &&& post.game_phase == pre.game_phase
            &&& post.renderer == pre.renderer
            &&& buffer_pop(pre.user_input, post.user_input)
        },
        _ => post == pre,
    })
}

/// Everything one event does at the game screen: Enter drives the
/// submit / advance / next-round exchange, characters and erasures edit
/// the answer (or leave the round-end screen on `b`), and Back or the
/// quit event wind the round down before handing over. The shared
/// configuration is never written.
pub open spec fn game_step_rel(
    pre: GameState,
    event: Event,
    config: Config,
    post: GameState,
    t: StateTransition,
    config_post: Config,
) -> bool {
    &&& config_post == config
    &&& (event == Event::Enter ==> game_submit_rel(pre, post, t))
    &&& (event matches Event::Character(c) ==> game_char_rel(pre, c, config, post, t))
    &&& (event == Event::RemoveCharacter ==> game_remove_rel(pre, post, t))
    &&& (event == Event::Back ==> round_closed(post) && (t
        matches StateTransition::Transition(s) && s matches AnyState::MainMenu(ms)
        && fresh_main_menu(ms, config)))
    &&& (event == Event::Quit ==> round_closed(post) && (t
        matches StateTransition::Transition(s) && s matches AnyState::Quit(_)))
}

/// The game screen: owns the drill for one visit, keeps the typed answer,
/// and walks the input / feedback / round-end exchange. Leaving the game
/// mid-round always winds the drill down first.
pub struct GameState {
    pub game: Game,
    pub renderer: Renderer,
    pub user_input: Option<String>,
    pub game_phase: GamePhase,
}

impl GameState {
    /// The drill is well-formed; a phrase is current whenever the screen
    /// is asking about one; the round-end screen stands only over a fully
    /// wound-down drill; typed text is never an empty string.
    pub open spec fn wf(&self) -> bool {
        &&& self.game.wf()
        &&& buffer_ok(self.user_input)
        &&& (self.game_phase is Input || self.game_phase is Feedback
            ==> self.game.current_phrase_idx is Some)
        &&& (self.game_phase is RoundEnd ==> self.game.unrecognized_phrases@.len() == 0
            && self.game.recognized_phrases@.len() == 0)
    }

    /// Enters the game: samples a round from the store and stands ready
    /// for the first answer — or at the round-end screen when the store
    /// gave nothing.
    pub fn new(config: &Config, db: &Database) -> (r: GameState)
        ensures
            r.wf(),
            fresh_game_state(r, *config, *db),
    {
        let mut game = Game::new(config.clone(), db.clone());
        game.start_round();
        let game_phase = if game.current_phrase_idx.is_some() {
            GamePhase::Input
        } else {
            GamePhase::RoundEnd
        };
        GameState { game, renderer: Renderer::new(config.clone()), user_input: None, game_phase }
    }

    /// Handles Enter, as `game_submit_rel` describes.
    pub fn handle_submit_event(&mut self) -> (t: StateTransition)
        requires
            old(self).wf(),
        ensures
            final(self).wf(),
            game_submit_rel(*old(self), *final(self), t),
    {
        match self.game_phase {
            GamePhase::Input => {
                let is_correct = match &self.user_input {
                    Some(input) => match self.game.check_phrase(input) {
                        Ok(b) => b,
                        Err(_) => false,
                    },
                    None => false,
                };
                self.game_phase = GamePhase::Feedback(is_correct);
            },
            GamePhase::Feedback(is_correct) => {
                if self.game.advance_phrase(is_correct).is_err() {
                    // the pool has emptied: wind the round down
                    self.game.end_round();
                    self.game_phase = GamePhase::RoundEnd;
                } else {
                    self.game_phase = GamePhase::Input;
                }
            },
            GamePhase::RoundEnd => {
                self.game.start_round();
                self.game_phase = if self.game.current_phrase_idx.is_some() {
                    GamePhase::Input
                } else {
                    GamePhase::RoundEnd
                };
            },
        }
        self.user_input = None;
        StateTransition::Stay
    }

    /// Handles a typed character, as `game_char_rel` describes.
    pub fn handle_character_event(&mut self, c: char, config: &Config) -> (t: StateTransition)
        requires
            old(self).wf(),
        ensures
            final(self).wf(),
            game_char_rel(*old(self), c, *config, *final(self), t),
    {
        match self.game_phase {
            GamePhase::Input => {
                buffer_push_char(&mut self.user_input, c);
            },
            GamePhase::RoundEnd => {
                if c == 'b' || c == 'B' {
                    let main_menu = MainMenuState::new(config);
                    return StateTransition::Transition(AnyState::MainMenu(main_menu));
                }
            },
            GamePhase::Feedback(_) => {
                // the verdict is on screen; typing means nothing here
            },
        }
        StateTransition::Stay
    }

    /// Handles erasing a character, as `game_remove_rel` describes.
    pub fn handle_remove_character_event(&mut self) -> (t: StateTransition)
        requires
            old(self).wf(),
        ensures
            final(self).wf(),
            game_remove_rel(*old(self), *final(self), t),
    {
        match self.game_phase {
            GamePhase::Input => {
                buffer_pop_char(&mut self.user_input);
            },
            _ => {},
        }
        StateTransition::Stay
    }
}

impl AppState for GameState {
    open spec fn inv(&self) -> bool {
        self.wf()
    }

    fn handle_event(&mut self, event: Event, config: &mut Config, db: &Database) -> (t:
        StateTransition)
        ensures
            t.inv(),
            game_step_rel(*old(self), event, *old(config), *final(self), t, *final(config)),
    {
        match event {
            Event::Enter => self.handle_submit_event(),
            Event::Back => {
                self.close_round();
                let main_menu = MainMenuState::new(config);
                StateTransition::Transition(AnyState::MainMenu(main_menu))
            },
            Event::Quit => {
                self.close_round();
                let quit_state = QuitState::new(config);
                StateTransition::Transition(AnyState::Quit(quit_state))
            },
            Event::RemoveCharacter => self.handle_remove_character_event(),
            Event::Character(c) => self.handle_character_event(c, config),
        }
    }

    fn render(&self) -> (lines: Vec<String>)
        ensures
            self.game_phase is RoundEnd ==> lines.deep_view() == logo_lines() + seq![
                "Round completed! Ready for the next one?"@,
                "    [Enter]  Next game"@,
                "    [B]      Back to main menu"@,
                ""@,
            ],
            self.game_phase matches GamePhase::Feedback(b) ==> lines.deep_view() == logo_lines()
                + (if b {
                seq!["Correct!"@, ""@]
            } else {
                seq![
                    "Incorrect! The correct answer was:"@,
                    "\t"@ + self.game.unrecognized_phrases@[
                        self.game.current_phrase_idx->Some_0 as int
                    ].0.1@,
                    ""@,
                ]
            }),
            self.game_phase is Input ==> lines.deep_view().len() == logo_lines().len() + 5
                && lines.deep_view().take(logo_lines().len() as int + 2) == logo_lines() + seq![
                "   Sentence: "@ + self.game.unrecognized_phrases@[
                    self.game.current_phrase_idx->Some_0 as int
                ].0.0@,
                ""@,
            ],
    {
        match self.game_phase {
            GamePhase::Input => {
                let phrase = match self.game.get_current_original() {
                    Ok(p) => p,
                    Err(_) => "",
                };
                let typed = match &self.user_input {
                    Some(s) => Some(s.as_str()),
                    None => None,
                };
                self.renderer.render_guessing_screen(phrase, typed)
            },
            GamePhase::Feedback(is_correct) => {
                let answer = match self.game.get_current_translation() {
                    Ok(a) => a,
                    Err(_) => "",
                };
                self.renderer.render_feedback_screen(is_correct, answer)
            },
            GamePhase::RoundEnd => self.renderer.render_round_end_screen(),
        }
    }
}

impl GameState {
    /// Ends the round's bookkeeping unless the round-end screen already
    /// did: whoever leaves the game leaves no drill state behind.
    fn close_round(&mut self)
        requires
            old(self).wf(),
        ensures
            final(self).wf(),
            round_closed(*final(self)),
    {
        match self.game_phase {
            GamePhase::RoundEnd => {
                // the round was already wound down when the pool emptied
            },
            _ => {
                self.game.end_round();
                self.game_phase = GamePhase::RoundEnd;
            },
        }
    }
}

} // verus!
