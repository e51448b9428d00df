use vstd::prelude::*;

use crate::app_state::{AppState, StateTransition};
use crate::config::Config;
use crate::database::Database;
use crate::event::Event;
use crate::renderer::{logo_lines, Renderer};

verus! {

/// Everything one event does at the quit state: nothing — it only asks
/// the run loop to stop, leaving itself and the configuration alone.
pub open spec fn quit_step_rel(
    pre: QuitState,
    event: Event,
    config: Config,
    post: QuitState,
    t: StateTransition,
    config_post: Config,
) -> bool {
    &&& post == pre
    &&& config_post == config
    &&& t is Quit
}

/// The terminal state: whatever arrives, it asks the run loop to stop.
pub struct QuitState {
    pub renderer: Renderer,
}

impl QuitState {
    /// Always well-formed: the quit state carries nothing that can break.
    pub open spec fn wf(&self) -> bool {
        true
    }

    pub fn new(config: &Config) -> (r: QuitState)
        ensures
            r.wf(),
            r.renderer.config == *config,
    {
        QuitState { renderer: Renderer::new(config.clone()) }
    }
}

impl AppState for QuitState {
    open spec fn inv(&self) -> bool {
        self.wf()
    }

    fn handle_event(&mut self, event: Event, config: &mut Config, db: &Database) -> (t:
        StateTransition)
        ensures
            t.inv(),
            quit_step_rel(*old(self), event, *old(config), *final(self), t, *final(config)),
    {
        StateTransition::Quit
    }

    fn render(&self) -> (lines: Vec<String>)
        ensures
            lines.deep_view() == logo_lines() + seq!["Goodbye!"@, ""@],
    {
        self.renderer.render_quit_screen()
    }
}

} // verus!
