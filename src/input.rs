use vstd::prelude::*;

use crate::action::{Action, Mode};

verus! {

/// The key of a key press, as far as the keymaps tell keys apart.
#[derive(Debug, Clone, Copy, PartialEq, Eq, Structural)]
pub enum KeyCode {
    Char(char),
    Up,
    Down,
    Left,
    Right,
    Home,
    End,
    PageUp,
    PageDown,
    Esc,
    Enter,
    /// Any other key.
    Other,
}

/// A key press: its key, and whether Control is the one modifier held.
#[derive(Debug, Clone, Copy, PartialEq, Eq, Structural)]
pub struct KeyPress {
    pub code: KeyCode,
    pub control: bool,
}

/// A raw input event.
#[derive(Debug, Clone, Copy, PartialEq, Eq, Structural)]
pub enum InputEvent {
    Key(KeyPress),
    /// The terminal now has this many columns and rows.
    Resize(u16, u16),
    /// Any other event (mouse, focus, paste).
    Other,
}

/// The navigation keymap.
pub open spec fn spec_normal_key(k: KeyPress) -> Option<Action> {
    match k.code {
        KeyCode::Char(c) => {
            if c == 'q' {
                Some(Action::Quit)
            } else if c == 'u' {
                Some(Action::Undo)
            } else if c == 'k' {
                Some(Action::MoveUp)
            } else if c == 'j' {
                Some(Action::MoveDown)
            } else if c == 'h' {
                Some(Action::MoveLeft)
            } else if c == 'l' {
                Some(Action::MoveRight)
            } else if c == 'i' {
                Some(Action::EnterMode(Mode::Insert))
            } else if c == '0' {
                Some(Action::MoveToLineStart)
            } else if c == '$' {
                Some(Action::MoveToLineEnd)
            } else if c == 'b' {
                if k.control { Some(Action::PageUp) } else { None }
            } else if c == 'f' {
                if k.control { Some(Action::PageDown) } else { None }
            } else if c == 'x' {
                Some(Action::DeleteCharAtCursorPos)
            } else if c == 'd' || c == 'g' {
                Some(Action::SetWaitingCmd(c))
            } else {
                None
            }
        },
        KeyCode::Up => Some(Action::MoveUp),
        KeyCode::Down => Some(Action::MoveDown),
        KeyCode::Left => Some(Action::MoveLeft),
        KeyCode::Right => Some(Action::MoveRight),
        KeyCode::Home => Some(Action::MoveToLineStart),
        KeyCode::End => Some(Action::MoveToLineEnd),
        KeyCode::PageUp => if k.control { Some(Action::PageUp) } else { None },
        KeyCode::PageDown => if k.control { Some(Action::PageDown) } else { None },
        _ => None,
    }
}

/// The insertion keymap.
pub open spec fn spec_insert_key(k: KeyPress) -> Option<Action> {
    match k.code {
        KeyCode::Esc => Some(Action::EnterMode(Mode::Normal)),
        KeyCode::Enter => Some(Action::NewLine),
        KeyCode::Char(c) => Some(Action::InsertCharAtCursorPos(c)),
        _ => None,
    }
}

/// How the event after a leader key resolves: `dd` deletes the line, `gg`
/// re-centers it, anything else is dropped.
pub open spec fn spec_leader(cmd: char, ev: InputEvent) -> Option<Action> {
    match ev {
        InputEvent::Key(k) => {
            if cmd == 'd' && k.code == KeyCode::Char('d') {
                Some(Action::DeleteCurrentLine)
            } else if cmd == 'g' && k.code == KeyCode::Char('g') {
                Some(Action::MoveLineToViewportCenter)
            } else {
                None
            }
        },
        _ => None,
    }
}

/// The action of a key press in navigation mode, with no leader pending.
pub fn normal_key_action(k: KeyPress) -> (r: Option<Action>)
    ensures
        r == spec_normal_key(k),
{
    match k.code {
        KeyCode::Char(c) => {
            if c == 'q' {
                Some(Action::Quit)
            } else if c == 'u' {
                Some(Action::Undo)
            } else if c == 'k' {
                Some(Action::MoveUp)
            } else if c == 'j' {
                Some(Action::MoveDown)
            } else if c == 'h' {
                Some(Action::MoveLeft)
            } else if c == 'l' {
                Some(Action::MoveRight)
            } else if c == 'i' {
                Some(Action::EnterMode(Mode::Insert))
            } else if c == '0' {
                Some(Action::MoveToLineStart)
            } else if c == '$' {
                Some(Action::MoveToLineEnd)
            } else if c == 'b' {
                if k.control { Some(Action::PageUp) } else { None }
            } else if c == 'f' {
                if k.control { Some(Action::PageDown) } else { None }
            } else if c == 'x' {
                Some(Action::DeleteCharAtCursorPos)
            } else if c == 'd' || c == 'g' {
                Some(Action::SetWaitingCmd(c))
            } else {
                None
            }
        },
        KeyCode::Up => Some(Action::MoveUp),
        KeyCode::Down => Some(Action::MoveDown),
        KeyCode::Left => Some(Action::MoveLeft),
        KeyCode::Right => Some(Action::MoveRight),
        KeyCode::Home => Some(Action::MoveToLineStart),
        KeyCode::End => Some(Action::MoveToLineEnd),
        KeyCode::PageUp => if k.control { Some(Action::PageUp) } else { None },
        KeyCode::PageDown => if k.control { Some(Action::PageDown) } else { None },
        _ => None,
    }
}

/// The action of a key press in insertion mode.
pub fn insert_key_action(k: KeyPress) -> (r: Option<Action>)
    ensures
        r == spec_insert_key(k),
{
    match k.code {
        KeyCode::Esc => Some(Action::EnterMode(Mode::Normal)),
        KeyCode::Enter => Some(Action::NewLine),
        KeyCode::Char(c) => Some(Action::InsertCharAtCursorPos(c)),
        _ => None,
    }
}

/// The action that the event `ev` completes after the leader key `cmd`.
pub fn leader_action(cmd: char, ev: InputEvent) -> (r: Option<Action>)
    ensures
        r == spec_leader(cmd, ev),
{
    match ev {
        InputEvent::Key(k) => match k.code {
            KeyCode::Char(c) => {
                if c != cmd {
                    None
                } else if cmd == 'd' {
                    Some(Action::DeleteCurrentLine)
                } else if cmd == 'g' {
                    Some(Action::MoveLineToViewportCenter)
                } else {
                    None
                }
            },
            _ => None,
        },
        _ => None,
    }
}

} // verus!
