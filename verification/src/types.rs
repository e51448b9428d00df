use vstd::prelude::*;

verus! {

/// A command recognised inside free-form text input.
#[derive(Debug, Clone, Copy, PartialEq, Eq, Structural)]
pub enum Command {
    Quit,
}

/// Verbosity levels accepted by the configuration file.
#[derive(Debug, Clone, Copy, PartialEq, Eq, Structural)]
pub enum LogLevel {
    Off,
    Error,
    Warn,
    Info,
    Debug,
    Trace,
}

/// What a finished line of user input amounts to: either free text or a
/// command triggered by a shortcut.
pub enum UserInput {
    Phrase(String),
    Command(Command),
}

} // verus!
