//! From raw key events to editing actions, with the modifier keys tracked
//! along the way.

use vstd::prelude::*;
use crate::client::{Key, KeyEvent};
use crate::scan::NEWLINE;

verus! {

/// What a key event asks the editor to do.
#[derive(Debug, Clone, Copy, PartialEq, Eq, Structural)]
pub enum Action {
    Delete,
    Insert(char),
    CursorUp,
    CursorDown,
    CursorRight,
    CursorLeft,
    Save,
    Quit,
    Noop,
}

/// Which modifier keys are held down.
#[derive(Debug, Clone, Copy, PartialEq, Eq, Structural)]
pub struct KeyMapping {
    pub shift: bool,
    pub ctrl: bool,
}

/// The modifier state after `event`: either shift key sets and clears
/// `shift`, either control key `ctrl`; no other event touches the state.
pub open spec fn modifiers_after(m: KeyMapping, event: KeyEvent) -> KeyMapping {
    match event {
        KeyEvent::Up(Key::LeftShift) | KeyEvent::Up(Key::RightShift) => KeyMapping {
            shift: false,
            ..m
        },
        KeyEvent::Down(Key::LeftShift) | KeyEvent::Down(Key::RightShift) => KeyMapping {
            shift: true,
            ..m
        },
        KeyEvent::Up(Key::LeftControl) | KeyEvent::Up(Key::RightControl) => KeyMapping {
            ctrl: false,
            ..m
        },
        KeyEvent::Down(Key::LeftControl) | KeyEvent::Down(Key::RightControl) => KeyMapping {
            ctrl: true,
            ..m
        },
        _ => m,
    }
}

/// The action that `event` stands for while the modifiers are `m`. Control
/// with `s` or `q` comes before plain character input; a key going up never
/// stands for an action.
pub open spec fn action_for(m: KeyMapping, event: KeyEvent) -> Action {
    match event {
        KeyEvent::Down(Key::Char(c)) => if m.ctrl && c == 's' {
            Action::Save
        } else if m.ctrl && c == 'q' {
            Action::Quit
        } else {
            Action::Insert(c)
        },
        KeyEvent::Down(Key::BackSpace) => Action::Delete,
        KeyEvent::Down(Key::Down) => Action::CursorDown,
        KeyEvent::Down(Key::Up) => Action::CursorUp,
        KeyEvent::Down(Key::Left) => Action::CursorLeft,
        KeyEvent::Down(Key::Right) => Action::CursorRight,
        KeyEvent::Down(Key::Return) => Action::Insert(NEWLINE),
        _ => Action::Noop,
    }
}

impl KeyMapping {
    /// No modifier is held.
    pub fn new() -> (m: KeyMapping)
        ensures
            m == (KeyMapping { shift: false, ctrl: false }),
    {
        KeyMapping { shift: false, ctrl: false }
    }

    /// Takes note of `event` in the modifier state, then says which action it
    /// stands for under the state so updated.
    pub fn get_action(&mut self, event: KeyEvent) -> (action: Action)
        ensures
            *final(self) == modifiers_after(*old(self), event),
            action == action_for(*final(self), event),
    {
        match event {
            KeyEvent::Up(Key::LeftShift) => self.shift = false,
            KeyEvent::Down(Key::LeftShift) => self.shift = true,
            KeyEvent::Up(Key::RightShift) => self.shift = false,
            KeyEvent::Down(Key::RightShift) => self.shift = true,
            KeyEvent::Up(Key::LeftControl) => self.ctrl = false,
            KeyEvent::Down(Key::LeftControl) => self.ctrl = true,
            KeyEvent::Up(Key::RightControl) => self.ctrl = false,
            KeyEvent::Down(Key::RightControl) => self.ctrl = true,
            _ => {},
        }
        match event {
            KeyEvent::Down(Key::Char(c)) => {
                if self.ctrl && c == 's' {
                    Action::Save
                } else if self.ctrl && c == 'q' {
                    Action::Quit
                } else {
                    Action::Insert(c)
                }
            },
            KeyEvent::Down(Key::BackSpace) => Action::Delete,
            KeyEvent::Down(Key::Down) => Action::CursorDown,
            KeyEvent::Down(Key::Up) => Action::CursorUp,
            KeyEvent::Down(Key::Left) => Action::CursorLeft,
            KeyEvent::Down(Key::Right) => Action::CursorRight,
            KeyEvent::Down(Key::Return) => Action::Insert(NEWLINE),
            _ => Action::Noop,
        }
    }
}

/// A key whose name is not known stands for no action, whatever the
/// modifiers.
pub proof fn law_unknown_key_never_acts(m: KeyMapping)
    ensures
        action_for(m, KeyEvent::Down(Key::Unknown)) == Action::Noop,
        action_for(m, KeyEvent::Up(Key::Unknown)) == Action::Noop,
{
}

/// A key going up never stands for an action.
pub proof fn law_key_up_never_acts(m: KeyMapping, key: Key)
    ensures
        action_for(m, KeyEvent::Up(key)) == Action::Noop,
{
}

} // verus!
