use vstd::prelude::*;

use crate::config::Config;
use crate::text::str_eq;
use crate::types::{Command, UserInput};

verus! {

/// What a finished line of main-menu input asks for.
#[derive(Debug, Clone, Copy, PartialEq, Eq, Structural)]
pub enum MenuAction {
    NewGame,
    Settings,
    Quit,
    Unrecognized,
}

/// What a finished line of play-again input asks for.
#[derive(Debug, Clone, Copy, PartialEq, Eq, Structural)]
pub enum PlayAgainAction {
    Again,
    Quit,
    BackToMenu,
}

/// What a finished line of settings-menu input asks for. Exit leaves the
/// settings menu; Quit leaves the application.
#[derive(Debug, Clone, Copy, PartialEq, Eq, Structural)]
pub enum SettingsAction {
    Database,
    Phrases,
    Save,
    Exit,
    Quit,
    Unrecognized,
}

/// How the main menu reads a finished line: empty input starts a game,
/// `s` opens the settings, `q` quits, the quit command always quits.
pub open spec fn menu_action_of(choice: &UserInput) -> MenuAction {
    match choice {
        UserInput::Command(Command::Quit) => MenuAction::Quit,
        UserInput::Phrase(p) => if p@ == Seq::<char>::empty() {
            MenuAction::NewGame
        } else if p@ == "s"@ || p@ == "settings"@ {
            MenuAction::Settings
        } else if p@ == "q"@ || p@ == "quit"@ {
            MenuAction::Quit
        } else {
            MenuAction::Unrecognized
        },
    }
}

/// How the play-again prompt reads a finished line: `y` plays another
/// round, `q` or the quit command quits, anything else returns to the
/// main menu.
pub open spec fn play_again_action_of(choice: &UserInput) -> PlayAgainAction {
    match choice {
        UserInput::Command(Command::Quit) => PlayAgainAction::Quit,
        UserInput::Phrase(p) => if p@ == "y"@ || p@ == "yes"@ {
            PlayAgainAction::Again
        } else if p@ == "q"@ || p@ == "quit"@ {
            PlayAgainAction::Quit
        } else {
            PlayAgainAction::BackToMenu
        },
    }
}

/// How the settings menu reads a finished line.
pub open spec fn settings_action_of(choice: &UserInput) -> SettingsAction {
    match choice {
        UserInput::Command(Command::Quit) => SettingsAction::Quit,
        UserInput::Phrase(p) => if p@ == "d"@ || p@ == "database"@ {
            SettingsAction::Database
        } else if p@ == "p"@ || p@ == "phrases"@ {
            SettingsAction::Phrases
        } else if p@ == "s"@ || p@ == "save"@ {
            SettingsAction::Save
        } else if p@ == "q"@ || p@ == "quit"@ {
            SettingsAction::Exit
        } else {
            SettingsAction::Unrecognized
        },
    }
}

/// The line-oriented front of the trainer: it owns the configuration and
/// decides what each finished line of input asks for. The prompt loops
/// that gather those lines live with the caller.
pub struct App {
    pub config: Config,
}

impl App {
    pub fn new(config: Config) -> (a: App)
        ensures
            a.config == config,
    {
        App { config }
    }

    /// Reads a finished main-menu line, exactly as `menu_action_of` says.
    pub fn main_menu_action(&self, choice: &UserInput) -> (r: MenuAction)
        ensures
            r == menu_action_of(choice),
    {
        match choice {
            UserInput::Command(Command::Quit) => MenuAction::Quit,
            UserInput::Phrase(p) => {
                let s = p.as_str();
                if s.is_empty() {
                    proof {
                        assert(p@ =~= Seq::<char>::empty());
                    }
                    MenuAction::NewGame
                } else if str_eq(s, "s") || str_eq(s, "settings") {
                    MenuAction::Settings
                } else if str_eq(s, "q") || str_eq(s, "quit") {
                    MenuAction::Quit
                } else {
                    MenuAction::Unrecognized
                }
            },
        }
    }

    /// Reads a finished play-again line, exactly as `play_again_action_of`
    /// says.
    pub fn play_again_action(&self, choice: &UserInput) -> (r: PlayAgainAction)
        ensures
            r == play_again_action_of(choice),
    {
        match choice {
            UserInput::Command(Command::Quit) => PlayAgainAction::Quit,
            UserInput::Phrase(p) => {
                let s = p.as_str();
                if str_eq(s, "y") || str_eq(s, "yes") {
                    PlayAgainAction::Again
                } else if str_eq(s, "q") || str_eq(s, "quit") {
                    PlayAgainAction::Quit
                } else {
                    PlayAgainAction::BackToMenu
                }
            },
        }
    }

    /// Reads a finished settings-menu line, exactly as
    /// `settings_action_of` says.
    pub fn settings_menu_action(&self, choice: &UserInput) -> (r: SettingsAction)
        ensures
            r == settings_action_of(choice),
    {
        match choice {
            UserInput::Command(Command::Quit) => SettingsAction::Quit,
            UserInput::Phrase(p) => {
                let s = p.as_str();
                if str_eq(s, "d") || str_eq(s, "database") {
                    SettingsAction::Database
                } else if str_eq(s, "p") || str_eq(s, "phrases") {
                    SettingsAction::Phrases
                } else if str_eq(s, "s") || str_eq(s, "save") {
                    SettingsAction::Save
                } else if str_eq(s, "q") || str_eq(s, "quit") {
                    SettingsAction::Exit
                } else {
                    SettingsAction::Unrecognized
                }
            },
        }
    }
}

} // verus!
