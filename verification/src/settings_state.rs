use vstd::prelude::*;

use crate::app_state::{AnyState, AppState, StateTransition};
use crate::config::Config;
use crate::database::Database;
use crate::event::Event;
use crate::main_menu_state::{fresh_main_menu, MainMenuState};
use crate::quit_state::QuitState;
use crate::renderer::{logo_lines, settings_option_lines, Renderer};
use crate::text::{
    buffer_ok, buffer_pop, buffer_pop_char, buffer_push, buffer_push_char, digits_value,
    is_usize_string, numeric_body, parse_usize,
};

verus! {

/// Which part of the settings exchange the screen is in: picking an
/// option, or typing a new value for one.
#[derive(Debug, Clone, Copy, PartialEq, Eq, Structural)]
pub enum SettingsPhase {
    ChoosingOption,
    ChangingOption(char),
}

/// A freshly opened settings screen: choosing, nothing typed, the working
/// copy equal to the configuration it was opened over.
pub open spec fn fresh_settings_state(ss: SettingsState, config: Config) -> bool {
    &&& ss.user_input is None
    &&& ss.settings_phase == SettingsPhase::ChoosingOption
    &&& ss.config_clone == config
    &&& ss.renderer.config == config
}

/// What submitting (Enter) does: nothing while choosing; while changing an
/// option, the typed text is read as the new round size — committed to the
/// working copy when it parses, discarded when it does not — and the
/// screen returns to choosing.
pub open spec fn settings_submit_rel(pre: SettingsState, post: SettingsState, t: StateTransition,
) -> bool {
    &&& t is Stay
    &&& post.renderer == pre.renderer
    &&& (match pre.settings_phase {
        SettingsPhase::ChoosingOption => post == pre,
        SettingsPhase::ChangingOption(_) => {
            &&& post.settings_phase == SettingsPhase::ChoosingOption
            &&& post.user_input is None
            &&& (match pre.user_input {
                Some(s) => if is_usize_string(s@) {
                    &&& post.config_clone.phrases_per_round as int == digits_value(
                        numeric_body(s@),
                    )
                    &&& post.config_clone.db_conn_string == pre.config_clone.db_conn_string
                    &&& post.config_clone.log_level == pre.config_clone.log_level
                    &&& post.config_clone.log_dir_uri == pre.config_clone.log_dir_uri
                    &&& post.config_clone.input_box_width == pre.config_clone.input_box_width
                } else {
                    post.config_clone == pre.config_clone
                },
                None => post.config_clone == pre.config_clone,
            })
        },
    })
}

/// What a typed character does: while choosing, `p` turns to editing the
/// round size, `q` commits the working copy to the shared configuration,
/// `b` goes back to the main menu, anything else is ignored; while
/// changing, characters are buffered.
pub open spec fn settings_char_rel(
    pre: SettingsState,
    c: char,
    config_pre: Config,
    post: SettingsState,
    t: StateTransition,
    config_post: Config,
) -> bool {
    match pre.settings_phase {
        SettingsPhase::ChoosingOption => {
            if c == 'p' || c == 'P' {
                &&& config_post == config_pre
                &&& t is Stay
                &&& post.settings_phase == SettingsPhase::ChangingOption('p')
                &&& post.user_input == pre.user_input
                &&& post.config_clone == pre.config_clone
                &&& post.renderer == pre.renderer
            } else if c == 'q' || c == 'Q' {
                &&& config_post == pre.config_clone
                &&& t is Stay
                &&& post == pre
            } else if c == 'b' || c == 'B' {
                &&& config_post == config_pre
                &&& post == pre
                &&& t matches StateTransition::Transition(s) && s matches AnyState::MainMenu(ms)
                    && fresh_main_menu(ms, config_pre)
            } else {
                &&& config_post == config_pre
                &&& post == pre
                &&& t is Stay
            }
        },
        SettingsPhase::ChangingOption(_) => {
            &&& config_post == config_pre
            &&& t is Stay
            &&& post.settings_phase == pre.settings_phase
            &&& post.config_clone == pre.config_clone
            &&& post.renderer == pre.renderer
            &&& buffer_push(pre.user_input, c, post.user_input)
        },
    }
}

/// Everything one event does at the settings screen, phase by phase, as
/// `settings_submit_rel` and `settings_char_rel` spell out for Enter and
/// for typed characters; erasing edits the pending value; Back always
/// returns to the main menu, silently discarding a pending edit, and the
/// quit event always hands over to the quit state. Only saving writes the
/// shared configuration.
pub open spec fn settings_step_rel(
    pre: SettingsState,
    event: Event,
    config: Config,
    post: SettingsState,
    t: StateTransition,
    config_post: Config,
) -> bool {
    &&& (event == Event::Enter ==> config_post == config && settings_submit_rel(pre, post, t))
    &&& (event matches Event::Character(c) ==> settings_char_rel(
        pre,
        c,
        config,
        post,
        t,
        config_post,
    ))
    &&& (event == Event::RemoveCharacter ==> config_post == config && t is Stay && (
    match pre.settings_phase {
        SettingsPhase::ChangingOption(_) => {
            &&& post.settings_phase == pre.settings_phase
            &&& post.config_clone == pre.config_clone
            &&& post.renderer == pre.renderer
            &&& buffer_pop(pre.user_input, post.user_input)
        },
        SettingsPhase::ChoosingOption => post == pre,
    }))
    &&& (event == Event::Back ==> config_post == config && post == pre && (t
        matches StateTransition::Transition(s) && s matches AnyState::MainMenu(ms)
        && fresh_main_menu(ms, config)))
    &&& (event == Event::Quit ==> config_post == config && post == pre && (t
        matches StateTransition::Transition(s) && s matches AnyState::Quit(_)))
}

/// The settings screen: edits a working copy of the configuration and
/// commits it to the shared one only on save, so other states never see a
/// half-made change.
pub struct SettingsState {
    pub renderer: Renderer,
    pub config_clone: Config,
    pub user_input: Option<String>,
    pub settings_phase: SettingsPhase,
}

impl SettingsState {
    /// Typed text is never an empty string, and nothing is ever typed
    /// while choosing an option.
    pub open spec fn wf(&self) -> bool {
        &&& buffer_ok(self.user_input)
        &&& (self.settings_phase is ChoosingOption ==> self.user_input is None)
    }

    pub fn new(config: &Config) -> (r: SettingsState)
        ensures
            r.wf(),
            fresh_settings_state(r, *config),
    {
        SettingsState {
            renderer: Renderer::new(config.clone()),
            config_clone: config.clone(),
            user_input: None,
            settings_phase: SettingsPhase::ChoosingOption,
        }
    }

    /// Handles Enter, as `settings_submit_rel` describes.
    pub fn handle_submit_event(&mut self) -> (t: StateTransition)
        requires
            old(self).wf(),
        ensures
            final(self).wf(),
            settings_submit_rel(*old(self), *final(self), t),
    {
        match self.settings_phase {
            SettingsPhase::ChoosingOption => {
                // Enter picks nothing while choosing
            },
            SettingsPhase::ChangingOption(_) => {
                let parsed = match &self.user_input {
                    Some(input) => parse_usize(input.as_str()),
                    None => None,
                };
                match parsed {
                    Some(value) => {
                        self.config_clone.phrases_per_round = value;
                    },
                    None => {
                        // the typed text is not a round size: discard it
                    },
                }
                self.user_input = None;
                self.settings_phase = SettingsPhase::ChoosingOption;
            },
        }
        StateTransition::Stay
    }

    /// Handles a typed character, as `settings_char_rel` describes.
    pub fn handle_character_event(&mut self, c: char, config: &mut Config) -> (t: StateTransition)
        requires
            old(self).wf(),
        ensures
            final(self).wf(),
            settings_char_rel(*old(self), c, *old(config), *final(self), t, *final(config)),
    {
        match self.settings_phase {
            SettingsPhase::ChoosingOption => {
                if c == 'p' || c == 'P' {
                    self.settings_phase = SettingsPhase::ChangingOption('p');
                } else if c == 'q' || c == 'Q' {
                    *config = self.config_clone.clone();
                } else if c == 'b' || c == 'B' {
                    let main_menu = MainMenuState::new(config);
                    return StateTransition::Transition(AnyState::MainMenu(main_menu));
                } else {
                    // the character names no option
                }
            },
            SettingsPhase::ChangingOption(_) => {
                buffer_push_char(&mut self.user_input, c);
            },
        }
        StateTransition::Stay
    }
}

impl AppState for SettingsState {
    open spec fn inv(&self) -> bool {
        self.wf()
    }

    fn handle_event(&mut self, event: Event, config: &mut Config, db: &Database) -> (t:
        StateTransition)
        ensures
            t.inv(),
            settings_step_rel(*old(self), event, *old(config), *final(self), t, *final(config)),
    {
        match event {
            Event::Enter => self.handle_submit_event(),
            Event::Back => {
                // a pending edit is silently discarded with this state
                let main_menu = MainMenuState::new(config);
                StateTransition::Transition(AnyState::MainMenu(main_menu))
            },
            Event::Quit => {
                let quit_state = QuitState::new(config);
                StateTransition::Transition(AnyState::Quit(quit_state))
            },
            Event::RemoveCharacter => {
                match self.settings_phase {
                    SettingsPhase::ChangingOption(_) => {
                        buffer_pop_char(&mut self.user_input);
                    },
                    SettingsPhase::ChoosingOption => {
                        // no edit in progress to erase from
                    },
                }
                StateTransition::Stay
            },
            Event::Character(c) => self.handle_character_event(c, config),
        }
    }

    fn render(&self) -> (lines: Vec<String>)
        ensures
            self.settings_phase is ChoosingOption ==> lines.deep_view() == logo_lines()
                + settings_option_lines(&self.config_clone),
            self.settings_phase is ChangingOption ==> lines.deep_view().len()
                == logo_lines().len() + settings_option_lines(&self.config_clone).len() + 3
                && lines.deep_view().take(
                logo_lines().len() as int + settings_option_lines(&self.config_clone).len() as int,
            ) == logo_lines() + settings_option_lines(&self.config_clone),
    {
        let placeholder_text = match self.settings_phase {
            SettingsPhase::ChoosingOption => None,
            SettingsPhase::ChangingOption(option) => {
                if option == 'p' {
                    Some("Enter number of phrases per round...")
                } else {
                    Some("Sorry, something went wrong...")
                }
            },
        };
        let typed = match &self.user_input {
            Some(s) => Some(s.as_str()),
            None => None,
        };
        self.renderer.render_settings_menu(typed, placeholder_text, &self.config_clone)
    }
}

} // verus!
