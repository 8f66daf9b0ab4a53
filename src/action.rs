use vstd::prelude::*;

verus! {

/// The input mode of the editor.
#[derive(Debug, Clone, Copy, PartialEq, Eq, Structural)]
pub enum Mode {
    /// Keys move the cursor and run commands.
    Normal,
    /// Keys insert text.
    Insert,
}

/// A semantic command, produced from a key event and applied by the executor.
#[derive(Debug, PartialEq, Eq)]
pub enum Action {
    Undo,
    Quit,
    MoveUp,
    MoveDown,
    MoveLeft,
    MoveRight,
    MoveToLineStart,
    MoveToLineEnd,
    PageUp,
    PageDown,
    InsertCharAtCursorPos(char),
    DeleteCharAtCursorPos,
    NewLine,
    EnterMode(Mode),
    SetWaitingCmd(char),
    DeleteCurrentLine,
    /// Puts a line back at an absolute row: the inverse of `DeleteCurrentLine`.
    InsertLineAt(usize, Option<String>),
    MoveLineToViewportCenter,
}

} // verus!
