use vstd::prelude::*;

use crate::action::{Action, Mode};
use crate::input::{spec_insert_key, spec_leader, spec_normal_key, InputEvent};

verus! {

/// `x`, or `u16::MAX` where `x` is larger.
pub open spec fn sat_u16(x: int) -> u16 {
    if x > u16::MAX {
        u16::MAX
    } else {
        x as u16
    }
}

/// `x`, or `usize::MAX` where `x` is larger.
pub open spec fn sat_usize(x: int) -> usize {
    if x > usize::MAX {
        usize::MAX
    } else {
        x as usize
    }
}

/// The whole state of an editor, as mathematical values.
pub struct EditorModel {
    /// Name of the source the text came from.
    pub file: Option<String>,
    /// The text, line by line.
    pub lines: Seq<Seq<char>>,
    /// Screen columns.
    pub width: u16,
    /// Screen rows, two of which hold the status line.
    pub height: u16,
    /// Absolute row of the first visible line.
    pub vtop: usize,
    /// Horizontal scroll offset.
    pub vleft: u16,
    /// Cursor column within the viewport.
    pub cx: u16,
    /// Cursor row within the viewport.
    pub cy: u16,
    pub mode: Mode,
    /// The leader key awaiting its second key, if any.
    pub waiting: Option<char>,
    /// Inverse actions, most recent last.
    pub undo: Seq<Action>,
}

impl EditorModel {
    /// The screen has a column and room for the status line.
    pub open spec fn wf(self) -> bool {
        self.width >= 1 && self.height >= 2
    }

    /// Rows of text that the viewport shows.
    pub open spec fn vheight(self) -> int {
        self.height - 2
    }

    /// Absolute row of the cursor (it cannot exceed `usize::MAX`).
    pub open spec fn row(self) -> int {
        sat_usize(self.vtop + self.cy) as int
    }

    /// The cursor stands on a line of the buffer.
    pub open spec fn has_line(self) -> bool {
        self.row() < self.lines.len()
    }

    /// Length of the cursor's line (0 past the end), capped at `u16::MAX`.
    pub open spec fn line_len(self) -> int {
        if self.has_line() {
            sat_u16(self.lines[self.row()].len() as int) as int
        } else {
            0
        }
    }

    /// The cursor moved to absolute row `y`: inside the viewport where it can be,
    /// else with the viewport starting at `y`.
    pub open spec fn park(self, y: usize) -> EditorModel {
        if y >= self.vtop && y - self.vtop <= u16::MAX {
            EditorModel { cy: (y - self.vtop) as u16, ..self }
        } else {
            EditorModel { vtop: y, cy: 0, ..self }
        }
    }

    /// Re-centering (`gg`): moves the viewport so that the cursor's line sits at the
    /// middle row, but only away from the top and bottom of the buffer.
    pub open spec fn recenter(self) -> EditorModel {
        let center = self.vheight() / 2;
        let d = self.cy - center;
        if d > 0 {
            if self.vtop > d {
                EditorModel { vtop: sat_usize(self.vtop + d), cy: center as u16, ..self }
            } else {
                self
            }
        } else if d < 0 {
            let up = -d;
            let candidate: int = if self.vtop >= up { self.vtop - up } else { 0 };
            if self.lines.len() > self.vtop + up && candidate != self.vtop {
                EditorModel { vtop: candidate as usize, cy: center as u16, ..self }
            } else {
                self
            }
        } else {
            self
        }
    }

    /// The effect of every action but `Undo` and `DeleteCurrentLine`, which
    /// `next` describes.
    pub open spec fn apply(self, a: Action) -> EditorModel {
        match a {
            Action::MoveUp => {
                if self.cy == 0 {
                    if self.vtop > 0 {
                        EditorModel { vtop: (self.vtop - 1) as usize, ..self }
                    } else {
                        self
                    }
                } else {
                    EditorModel { cy: (self.cy - 1) as u16, ..self }
                }
            },
            Action::MoveDown => {
                if self.cy + 1 >= self.vheight() {
                    EditorModel { vtop: sat_usize(self.vtop + 1), ..self }
                } else {
                    EditorModel { cy: (self.cy + 1) as u16, ..self }
                }
            },
            Action::MoveLeft => {
                let c: int = if self.cx > 0 { self.cx - 1 } else { 0 };
                EditorModel { cx: if c < self.vleft { self.vleft } else { c as u16 }, ..self }
            },
            Action::MoveRight => EditorModel { cx: sat_u16(self.cx + 1), ..self },
            Action::MoveToLineStart => EditorModel { cx: 0, ..self },
            Action::MoveToLineEnd => EditorModel {
                cx: if self.line_len() > 0 { (self.line_len() - 1) as u16 } else { 0 },
                ..self
            },
            Action::PageUp => {
                if self.vtop > 0 {
                    EditorModel {
                        vtop: if self.vtop >= self.vheight() { (self.vtop - self.vheight()) as usize } else { 0 },
                        ..self
                    }
                } else {
                    self
                }
            },
            Action::PageDown => {
                if self.lines.len() > self.vtop + self.vheight() {
                    EditorModel { vtop: (self.vtop + self.vheight()) as usize, ..self }
                } else {
                    self
                }
            },
            Action::EnterMode(m) => EditorModel { mode: m, ..self },
            Action::InsertCharAtCursorPos(c) => {
                if !self.has_line() {
                    EditorModel { cx: sat_u16(self.cx + 1), ..self }
                } else if self.cx <= self.lines[self.row()].len() {
                    EditorModel {
                        lines: self.lines.update(
                            self.row(),
                            self.lines[self.row()].insert(self.cx as int, c),
                        ),
                        cx: sat_u16(self.cx + 1),
                        ..self
                    }
                } else {
                    self
                }
            },
            Action::DeleteCharAtCursorPos => {
                if self.has_line() && self.cx < self.lines[self.row()].len() {
                    EditorModel {
                        lines: self.lines.update(
                            self.row(),
                            self.lines[self.row()].remove(self.cx as int),
                        ),
                        ..self
                    }
                } else {
                    self
                }
            },
            Action::NewLine => EditorModel { cx: 0, cy: sat_u16(self.cy + 1), ..self },
            Action::SetWaitingCmd(c) => EditorModel { waiting: Some(c), ..self },
            Action::InsertLineAt(y, contents) => match contents {
                Some(t) => EditorModel {
                    lines: if y < self.lines.len() { self.lines.insert(y as int, t@) } else { self.lines },
                    ..self
                }.park(y),
                None => self,
            },
            Action::MoveLineToViewportCenter => self.recenter(),
            _ => self,
        }
    }

    /// `e` is the inverse recorded when the cursor's line is deleted: it puts the
    /// line's content back at its absolute row.
    pub open spec fn is_delete_inverse(self, e: Action) -> bool {
        match e {
            Action::InsertLineAt(r, c) => {
                &&& r == self.row()
                &&& self.has_line() ==> c.is_some() && c.unwrap()@ == self.lines[self.row()]
                &&& !self.has_line() ==> c.is_none()
            },
            _ => false,
        }
    }

    /// `t` is `self` after deleting the cursor's line and recording its inverse.
    pub open spec fn deleted_line(self, t: EditorModel) -> bool {
        &&& t.undo.len() == self.undo.len() + 1
        &&& t.undo == self.undo.push(t.undo.last())
        &&& self.is_delete_inverse(t.undo.last())
        &&& t == EditorModel {
            lines: if self.has_line() { self.lines.remove(self.row()) } else { self.lines },
            undo: t.undo,
            ..self
        }
    }

    /// `t` is the state that executing `a` in state `self` leads to. Of an
    /// inverse that `DeleteCurrentLine` records, the `String` value is left open;
    /// its characters are fixed.
    pub open spec fn next(self, a: Action, t: EditorModel) -> bool
        decreases self.undo.len(),
    {
        match a {
            Action::Undo => {
                if self.undo.len() == 0 {
                    t == self
                } else {
                    EditorModel { undo: self.undo.drop_last(), ..self }.next(self.undo.last(), t)
                }
            },
            Action::DeleteCurrentLine => self.deleted_line(t),
            _ => t == self.apply(a),
        }
    }

    /// The bounds pass: the column is pulled inside the cursor's line and the
    /// screen, and the row onto the last line of the buffer (an empty buffer
    /// counts as one empty line).
    pub open spec fn bounds(self) -> EditorModel {
        let ll = self.line_len();
        let cx1: int = if self.cx >= ll {
            if ll > 0 { ll - 1 } else { 0 }
        } else {
            self.cx as int
        };
        let cx2: int = if cx1 >= self.width { self.width - 1 } else { cx1 };
        let last: int = if self.lines.len() > 0 { self.lines.len() - 1 } else { 0 };
        if self.vtop + self.cy > last {
            if self.vtop <= last {
                EditorModel { cx: cx2 as u16, cy: (last - self.vtop) as u16, ..self }
            } else {
                EditorModel { cx: cx2 as u16, vtop: last as usize, cy: 0, ..self }
            }
        } else {
            EditorModel { cx: cx2 as u16, ..self }
        }
    }

    /// The state after the event `ev` is read, and the action it produces.
    pub open spec fn on_event(self, ev: InputEvent) -> (EditorModel, Option<Action>) {
        let s = match ev {
            InputEvent::Resize(w, h) => EditorModel { width: w, height: h, ..self },
            _ => self,
        };
        match s.mode {
            Mode::Normal => match s.waiting {
                Some(cmd) => (EditorModel { waiting: None, ..s }, spec_leader(cmd, ev)),
                None => (
                    s,
                    match ev {
                        InputEvent::Key(k) => spec_normal_key(k),
                        _ => None,
                    },
                ),
            },
            Mode::Insert => (
                s,
                match ev {
                    InputEvent::Key(k) => spec_insert_key(k),
                    _ => None,
                },
            ),
        }
    }
}

} // verus!
