//! Which key presses the terminal interface acts on.
use vstd::prelude::*;

use crate::tui::action::Action;

verus! {

/// A key, as far as the terminal interface tells keys apart.
#[derive(Debug, Clone, Copy, PartialEq, Eq, Structural)]
pub enum Key {
    Char(char),
    Esc,
    Up,
    Down,
    PageUp,
    PageDown,
    Home,
    End,
    Other,
}

/// The action a pressed key asks for: `q` or Esc quits, `r` reloads, `j`/Down
/// and `k`/Up scroll a line, Page Down/Up a page, Home and End jump to the
/// start and the end. Other keys, and key releases, ask for nothing.
pub open spec fn spec_action_for(key: Key, pressed: bool) -> Option<Action> {
    if !pressed {
        None
    } else {
        match key {
            Key::Char(c) => if c == 'q' {
                Some(Action::Quit)
            } else if c == 'r' {
                Some(Action::Refresh)
            } else if c == 'j' {
                Some(Action::ScrollDown)
            } else if c == 'k' {
                Some(Action::ScrollUp)
            } else {
                None
            },
            Key::Esc => Some(Action::Quit),
            Key::Down => Some(Action::ScrollDown),
            Key::Up => Some(Action::ScrollUp),
            Key::PageDown => Some(Action::ScrollPageDown),
            Key::PageUp => Some(Action::ScrollPageUp),
            Key::Home => Some(Action::ScrollStart),
            Key::End => Some(Action::ScrollEnd),
            Key::Other => None,
        }
    }
}

/// The action a key event asks for.
pub fn action_for(key: Key, pressed: bool) -> (r: Option<Action>)
    ensures
        r == spec_action_for(key, pressed),
{
    if !pressed {
        return None;
    }
    match key {
        Key::Char(c) => {
            if c == 'q' {
                Some(Action::Quit)
            } else if c == 'r' {
                Some(Action::Refresh)
            } else if c == 'j' {
                Some(Action::ScrollDown)
            } else if c == 'k' {
                Some(Action::ScrollUp)
            } else {
                None
            }
        },
        Key::Esc => Some(Action::Quit),
        Key::Down => Some(Action::ScrollDown),
        Key::Up => Some(Action::ScrollUp),
        Key::PageDown => Some(Action::ScrollPageDown),
        Key::PageUp => Some(Action::ScrollPageUp),
        Key::Home => Some(Action::ScrollStart),
        Key::End => Some(Action::ScrollEnd),
        Key::Other => None,
    }
}

} // verus!
