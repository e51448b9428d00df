use vstd::prelude::*;

use crate::app_state::{dispatch_rel, AnyState, StateTransition};
use crate::config::Config;
use crate::database::Database;
use crate::event::Event;
use crate::main_menu_state::{fresh_main_menu, MainMenuState};

verus! {

/// One run-loop step, witnessed: the active state handled the event as
/// its own step relation says (`mid` being the handled state and `t` the
/// transition it asked for), and the machine then kept the handled state,
/// installed the requested successor, or reported termination.
pub open spec fn step_witness(
    pre: App,
    event: Event,
    mid: AnyState,
    t: StateTransition,
    post: App,
    quit: bool,
) -> bool {
    &&& dispatch_rel(pre.state, event, pre.config, pre.db, mid, t, post.config)
    &&& post.db == pre.db
    &&& quit == (t is Quit)
    &&& (match t {
        StateTransition::Stay => post.state == mid,
        StateTransition::Transition(s) => post.state == s,
        StateTransition::Quit => post.state == mid,
    })
}

/// What one run-loop step does: some handled state and transition witness
/// it, as `step_witness` spells out.
pub open spec fn step_rel(pre: App, event: Event, post: App, quit: bool) -> bool {
    exists|mid: AnyState, t: StateTransition| step_witness(pre, event, mid, t, post, quit)
}

/// The application driver: owns the shared configuration, the phrase
/// store and the one active state. A run loop around it renders, waits
/// for one event, and hands it to `step` until `step` says to stop.
pub struct App {
    pub config: Config,
    pub db: Database,
    pub state: AnyState,
}

impl App {
    pub open spec fn inv(&self) -> bool {
        self.state.inv()
    }

    /// Starts at the main menu.
    pub fn new(config: Config, db: Database) -> (r: App)
        ensures
            r.inv(),
            r.config == config,
            r.db == db,
            r.state matches AnyState::MainMenu(ms) && fresh_main_menu(ms, config),
    {
        let main_menu = MainMenuState::new(&config);
        App { state: AnyState::MainMenu(main_menu), config, db }
    }

    /// Feeds one event to the active state and swaps states on a
    /// transition, exactly as `step_rel` describes. True exactly when the
    /// quit state asks the loop to end — which it is only ever asked after
    /// the quit state has been reached through the active state's own
    /// handling.
    pub fn step(&mut self, event: Event) -> (quit: bool)
        requires
            old(self).inv(),
        ensures
            final(self).inv(),
            final(self).db == old(self).db,
            quit == (old(self).state is Quit),
            step_rel(*old(self), event, *final(self), quit),
    {
        let transition = self.state.handle_event(event, &mut self.config, &self.db);
        let ghost mid = self.state;
        let ghost tr = transition;
        match transition {
            StateTransition::Stay => {
                proof {
                    assert(step_witness(*old(self), event, mid, tr, *self, false));
                }
                false
            },
            StateTransition::Quit => {
                proof {
                    assert(step_witness(*old(self), event, mid, tr, *self, true));
                }
                true
            },
            StateTransition::Transition(next_state) => {
                self.state = next_state;
                proof {
                    assert(step_witness(*old(self), event, mid, tr, *self, false));
                }
                false
            },
        }
    }

    /// The active state's screen.
    pub fn render_lines(&self) -> (lines: Vec<String>)
        requires
            self.inv(),
    {
        self.state.render()
    }
}

} // verus!
