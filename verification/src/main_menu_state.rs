use vstd::prelude::*;

use crate::app_state::{AnyState, AppState, StateTransition};
use crate::config::Config;
use crate::database::Database;
use crate::event::Event;
use crate::game_state::{fresh_game_state, GameState};
use crate::quit_state::QuitState;
use crate::renderer::{logo_lines, main_menu_option_lines, Renderer};
use crate::settings_state::{fresh_settings_state, SettingsState};
use crate::text::{buffer_ok, buffer_pop, buffer_pop_char, buffer_push, buffer_push_char};

verus! {

/// A freshly opened main menu: nothing typed, screens drawn against the
/// given configuration.
pub open spec fn fresh_main_menu(ms: MainMenuState, config: Config) -> bool {
    &&& ms.user_input is None
    &&& ms.renderer.config == config
}

/// Everything one event does at the main menu: Enter on a clean buffer
/// starts a game over the store, `s` opens the settings, `q` or the quit
/// event hands over to the quit state, Back means nothing here, erasing
/// edits the buffer, and any other character is buffered as text. The
/// shared configuration is never written.
pub open spec fn main_menu_step_rel(
    pre: MainMenuState,
    event: Event,
    config: Config,
    db: Database,
    post: MainMenuState,
    t: StateTransition,
    config_post: Config,
) -> bool {
    &&& config_post == config
    &&& post.renderer == pre.renderer
    &&& (event == Event::Enter ==> (match pre.user_input {
        None => t matches StateTransition::Transition(s) && s matches AnyState::Game(gs)
            && fresh_game_state(gs, config, db) && post == pre,
        Some(_) => t is Stay && post.user_input is None,
    }))
    &&& (event == Event::Quit ==> post == pre && (t matches StateTransition::Transition(s) && s
        matches AnyState::Quit(_)))
    &&& (event == Event::Back ==> post == pre && t is Stay)
    &&& (event == Event::RemoveCharacter ==> t is Stay && buffer_pop(
        pre.user_input,
        post.user_input,
    ))
    &&& (event matches Event::Character(c) ==> (match pre.user_input {
        Some(_) => t is Stay && buffer_push(pre.user_input, c, post.user_input),
        None => if c == 's' || c == 'S' {
            &&& post == pre
            &&& t matches StateTransition::Transition(s)
            &&& s matches AnyState::Settings(ss)
            &&& fresh_settings_state(ss, config)
        } else if c == 'q' || c == 'Q' {
            &&& post == pre
            &&& t matches StateTransition::Transition(s)
            &&& s matches AnyState::Quit(_)
        } else {
            t is Stay && buffer_push(pre.user_input, c, post.user_input)
        },
    }))
}

/// The entry state: Enter starts a game, `s` opens the settings, `q` or
/// the quit event leaves, anything else is buffered as text.
pub struct MainMenuState {
    pub renderer: Renderer,
    pub user_input: Option<String>,
}

impl MainMenuState {
    /// Whatever has been typed is never an empty string.
    pub open spec fn wf(&self) -> bool {
        buffer_ok(self.user_input)
    }

    pub fn new(config: &Config) -> (r: MainMenuState)
        ensures
            r.wf(),
            fresh_main_menu(r, *config),
    {
        MainMenuState { renderer: Renderer::new(config.clone()), user_input: None }
    }
}

impl AppState for MainMenuState {
    open spec fn inv(&self) -> bool {
        self.wf()
    }

    fn handle_event(&mut self, event: Event, config: &mut Config, db: &Database) -> (t:
        StateTransition)
        ensures
            t.inv(),
            main_menu_step_rel(
                *old(self),
                event,
                *old(config),
                *db,
                *final(self),
                t,
                *final(config),
            ),
    {
        match event {
            Event::Enter => {
                match &self.user_input {
                    None => {
                        let game_state = GameState::new(config, db);
                        return StateTransition::Transition(AnyState::Game(game_state));
                    },
                    Some(_) => {
                        // typed text does not name an option: discard it
                        self.user_input = None;
                    },
                }
            },
            Event::Quit => {
                let quit_state = QuitState::new(config);
                return StateTransition::Transition(AnyState::Quit(quit_state));
            },
            Event::RemoveCharacter => {
                buffer_pop_char(&mut self.user_input);
            },
            Event::Character(c) => {
                match &self.user_input {
                    Some(_) => {
                        buffer_push_char(&mut self.user_input, c);
                    },
                    None => {
                        if c == 's' || c == 'S' {
                            let settings_state = SettingsState::new(config);
                            return StateTransition::Transition(AnyState::Settings(settings_state));
                        } else if c == 'q' || c == 'Q' {
                            let quit_state = QuitState::new(config);
                            return StateTransition::Transition(AnyState::Quit(quit_state));
                        } else {
                            buffer_push_char(&mut self.user_input, c);
                        }
                    },
                }
            },
            Event::Back => {
                // nothing to go back to from the entry state
            },
        }
        StateTransition::Stay
    }

    fn render(&self) -> (lines: Vec<String>)
        ensures
            lines.deep_view() == logo_lines() + main_menu_option_lines(),
    {
        self.renderer.render_main_menu()
    }
}

} // verus!
