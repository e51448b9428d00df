use vstd::prelude::*;

verus! {

/// The closed vocabulary of semantic input events the state machine
/// consumes. Everything else a terminal can produce is discarded before it
/// reaches the states.
#[derive(Debug, Clone, Copy, PartialEq, Eq, Structural)]
pub enum Event {
    Enter,
    Back,
    Quit,
    RemoveCharacter,
    Character(char),
}

/// A raw key press, already stripped of terminal details: just which key,
/// as plain data.
#[derive(Debug, Clone, Copy, PartialEq, Eq, Structural)]
pub enum Key {
    Enter,
    Esc,
    Backspace,
    Char(char),
    Other,
}

/// How a raw key press translates: releases and unknown keys are
/// discarded; Escape means quit; the rest map one to one.
pub open spec fn translate_spec(key: Key, is_release: bool) -> Option<Event> {
    if is_release {
        None
    } else {
        match key {
            Key::Enter => Some(Event::Enter),
            Key::Esc => Some(Event::Quit),
            Key::Backspace => Some(Event::RemoveCharacter),
            Key::Char(c) => Some(Event::Character(c)),
            Key::Other => None,
        }
    }
}

/// Turns raw key presses into the event vocabulary. The blocking read
/// itself lives with the caller; this is the decision part.
pub struct EventDispatcher {}

impl EventDispatcher {
    pub fn new() -> (r: EventDispatcher) {
        EventDispatcher {  }
    }

    /// One raw key press in, at most one semantic event out.
    pub fn translate(&self, key: Key, is_release: bool) -> (r: Option<Event>)
        ensures
            r == translate_spec(key, is_release),
    {
        if is_release {
            return None;
        }
        match key {
            Key::Enter => Some(Event::Enter),
            Key::Esc => Some(Event::Quit),
            Key::Backspace => Some(Event::RemoveCharacter),
            Key::Char(c) => Some(Event::Character(c)),
            Key::Other => None,
        }
    }
}

} // verus!
