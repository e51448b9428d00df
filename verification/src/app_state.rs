use vstd::prelude::*;

use crate::config::Config;
use crate::database::Database;
use crate::event::Event;
use crate::game_state::{game_step_rel, GameState};
use crate::main_menu_state::{main_menu_step_rel, MainMenuState};
use crate::quit_state::{quit_step_rel, QuitState};
use crate::settings_state::{settings_step_rel, SettingsState};

verus! {

/// The uniform contract of the application states: each consumes one event
/// at a time, may read or (for the settings screen) write the shared
/// configuration, may draw on the phrase store to build a successor state,
/// and answers with what should happen next. Each keeps its own invariant.
pub trait AppState: Sized {
    /// The state's internal well-formedness.
    spec fn inv(&self) -> bool;

    /// Consumes one input event.
    fn handle_event(&mut self, event: Event, config: &mut Config, db: &Database) -> (t:
        StateTransition)
        requires
            old(self).inv(),
        ensures
            final(self).inv(),
    ;

    /// The lines of this state's screen.
    fn render(&self) -> (lines: Vec<String>)
        requires
            self.inv(),
    ;
}

/// One of the four application states, as a closed tagged union: the run
/// loop owns exactly one of these at a time.
pub enum AnyState {
    MainMenu(MainMenuState),
    Game(GameState),
    Settings(SettingsState),
    Quit(QuitState),
}

/// What a state asks for after an event: stay as it is, hand control to a
/// freshly built state, or terminate the run loop.
pub enum StateTransition {
    Stay,
    Transition(AnyState),
    Quit,
}

/// What dispatching one event does, whichever state is active: the active
/// state keeps its variant, and its own step relation ties the old state,
/// the event, the configuration before and after, the handled state and
/// the requested transition together.
pub open spec fn dispatch_rel(
    pre: AnyState,
    event: Event,
    config: Config,
    db: Database,
    post: AnyState,
    t: StateTransition,
    config_post: Config,
) -> bool {
    &&& (pre matches AnyState::MainMenu(s0) ==> post matches AnyState::MainMenu(s1)
        && main_menu_step_rel(s0, event, config, db, s1, t, config_post))
    &&& (pre matches AnyState::Game(s0) ==> post matches AnyState::Game(s1) && game_step_rel(
        s0,
        event,
        config,
        s1,
        t,
        config_post,
    ))
    &&& (pre matches AnyState::Settings(s0) ==> post matches AnyState::Settings(s1)
        && settings_step_rel(s0, event, config, s1, t, config_post))
    &&& (pre matches AnyState::Quit(s0) ==> post matches AnyState::Quit(s1) && quit_step_rel(
        s0,
        event,
        config,
        s1,
        t,
        config_post,
    ))
}

impl AnyState {
    pub open spec fn inv(&self) -> bool {
        match self {
            AnyState::MainMenu(s) => s.wf(),
            AnyState::Game(s) => s.wf(),
            AnyState::Settings(s) => s.wf(),
            AnyState::Quit(s) => s.wf(),
        }
    }

    /// Dispatches one event to whichever state is active. Only the quit
    /// state ever asks the loop to terminate.
    pub fn handle_event(&mut self, event: Event, config: &mut Config, db: &Database) -> (t:
        StateTransition)
        requires
            old(self).inv(),
        ensures
            final(self).inv(),
            t.inv(),
            t is Quit <==> *old(self) is Quit,
            dispatch_rel(*old(self), event, *old(config), *db, *final(self), t, *final(config)),
    {
        match self {
            AnyState::MainMenu(s) => s.handle_event(event, config, db),
            AnyState::Game(s) => s.handle_event(event, config, db),
            AnyState::Settings(s) => s.handle_event(event, config, db),
            AnyState::Quit(s) => s.handle_event(event, config, db),
        }
    }

    /// The active state's screen.
    pub fn render(&self) -> (lines: Vec<String>)
        requires
            self.inv(),
    {
        match self {
            AnyState::MainMenu(s) => s.render(),
            AnyState::Game(s) => s.render(),
            AnyState::Settings(s) => s.render(),
            AnyState::Quit(s) => s.render(),
        }
    }
}

impl StateTransition {
    /// A requested successor state arrives well-formed.
    pub open spec fn inv(&self) -> bool {
        match self {
            StateTransition::Transition(s) => s.inv(),
            _ => true,
        }
    }
}

} // verus!
