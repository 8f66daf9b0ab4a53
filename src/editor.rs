use vstd::prelude::*;

use crate::action::{Action, Mode};
use crate::buffer::Buffer;
use crate::input::{insert_key_action, leader_action, normal_key_action, InputEvent};
use crate::model::{sat_usize, EditorModel};

verus! {

/// A modal editor: a buffer, a viewport with a cursor, the input mode and the
/// undo stack. Drawing and reading keys are left to the caller.
pub struct Editor {
    buffer: Buffer,
    size: (u16, u16),
    vtop: usize,
    vleft: u16,
    cx: u16,
    cy: u16,
    mode: Mode,
    waiting_command: Option<char>,
    undo_actions: Vec<Action>,
}

impl View for Editor {
    type V = EditorModel;

    closed spec fn view(&self) -> EditorModel {
        EditorModel {
            file: self.buffer.spec_file(),
            lines: self.buffer@,
            width: self.size.0,
            height: self.size.1,
            vtop: self.vtop,
            vleft: self.vleft,
            cx: self.cx,
            cy: self.cy,
            mode: self.mode,
            waiting: self.waiting_command,
            undo: self.undo_actions@,
        }
    }
}

impl Editor {
    /// An editor on `buffer` for a screen of `size` (columns, rows), with the
    /// viewport and the cursor at the top left, in navigation mode.
    pub fn new(buffer: Buffer, size: (u16, u16)) -> (r: Editor)
        requires
            size.0 >= 1,
            size.1 >= 2,
        ensures
            r@ == (EditorModel {
                file: buffer.spec_file(),
                lines: buffer@,
                width: size.0,
                height: size.1,
                vtop: 0,
                vleft: 0,
                cx: 0,
                cy: 0,
                mode: Mode::Normal,
                waiting: None,
                undo: Seq::empty(),
            }),
    {
        let r = Editor {
            buffer,
            size,
            vtop: 0,
            vleft: 0,
            cx: 0,
            cy: 0,
            mode: Mode::Normal,
            waiting_command: None,
            undo_actions: Vec::new(),
        };
        assert(r@.undo =~= Seq::empty());
        r
    }

    /// Screen columns.
    pub fn vwidth(&self) -> (r: u16)
        ensures
            r == self@.width,
    {
        self.size.0
    }

    /// Rows of text in the viewport: the screen rows less the status line's two.
    pub fn vheight(&self) -> (r: u16)
        requires
            self@.wf(),
        ensures
            r == self@.vheight(),
    {
        self.size.1 - 2
    }

    /// Length of the cursor's line, 0 past the end, capped at `u16::MAX`.
    pub fn line_length(&self) -> (r: u16)
        ensures
            r == self@.line_len(),
    {
        match self.buffer.line_len(self.buffer_line()) {
            Some(n) => {
                if n > u16::MAX as usize {
                    u16::MAX
                } else {
                    n as u16
                }
            },
            None => 0,
        }
    }

    /// Absolute row of the cursor.
    pub fn buffer_line(&self) -> (r: usize)
        ensures
            r == self@.row(),
    {
        self.vtop.saturating_add(self.cy as usize)
    }

    /// The buffer line shown at viewport row `n`, if there is one.
    pub fn viewport_line(&self, n: u16) -> (r: Option<String>)
        ensures
            sat_usize(self@.vtop + n) < self@.lines.len() ==> r.is_some() && r.unwrap()@
                == self@.lines[sat_usize(self@.vtop + n) as int],
            sat_usize(self@.vtop + n) >= self@.lines.len() ==> r.is_none(),
    {
        let buffer_line = self.vtop.saturating_add(n as usize);
        self.buffer.get(buffer_line)
    }

    /// The content of the cursor's line, if there is one.
    pub fn current_line_contents(&self) -> (r: Option<String>)
        ensures
            self@.has_line() ==> r.is_some() && r.unwrap()@ == self@.lines[self@.row()],
            !self@.has_line() ==> r.is_none(),
    {
        self.buffer.get(self.buffer_line())
    }

    /// The bounds pass, run before each drawing: see `EditorModel::bounds`.
    pub fn check_bounds(&mut self)
        requires
            old(self)@.wf(),
        ensures
            final(self)@ == old(self)@.bounds(),
    {
        let line_length = self.line_length();
        if self.cx >= line_length {
            if line_length > 0 {
                self.cx = line_length - 1;
            } else {
                self.cx = 0;
            }
        }
        if self.cx >= self.vwidth() {
            self.cx = self.vwidth() - 1;
        }
        let len = self.buffer.len();
        let last: usize = if len > 0 { len - 1 } else { 0 };
        let line_on_buffer = self.buffer_line();
        if line_on_buffer > last {
            if self.vtop <= last {
                self.cy = (last - self.vtop) as u16;
            } else {
                self.vtop = last;
                self.cy = 0;
            }
        }
    }
    /// Applies `action`. `Undo` pops the most recent inverse and applies it in
    /// turn; `DeleteCurrentLine` records one. Characters are inserted or removed
    /// only at a column that is valid for the cursor's line.
    pub fn execute(&mut self, action: &Action)
        requires
            old(self)@.wf(),
        ensures
            final(self)@.wf(),
            old(self)@.next(*action, final(self)@),
        decreases old(self)@.undo.len(),
    {
        match action {
            Action::Quit => {},
            Action::MoveUp => {
                if self.cy == 0 {
                    if self.vtop > 0 {
                        self.vtop = self.vtop - 1;
                    }
                } else {
                    self.cy = self.cy - 1;
                }
            },
            Action::MoveDown => {
                if self.cy as u32 + 1 >= self.vheight() as u32 {
                    self.vtop = self.vtop.saturating_add(1);
                } else {
                    self.cy = self.cy + 1;
                }
            },
            Action::MoveLeft => {
                self.cx = self.cx.saturating_sub(1);
                if self.cx < self.vleft {
                    self.cx = self.vleft;
                }
            },
            Action::MoveRight => {
                self.cx = self.cx.saturating_add(1);
            },
            Action::MoveToLineStart => {
                self.cx = 0;
            },
            Action::MoveToLineEnd => {
                self.cx = self.line_length().saturating_sub(1);
            },
            Action::PageUp => {
                if self.vtop > 0 {
                    self.vtop = self.vtop.saturating_sub(self.vheight() as usize);
                }
            },
            Action::PageDown => {
                let vheight = self.vheight() as usize;
                let len = self.buffer.len();
                if self.vtop <= usize::MAX - vheight && len > self.vtop + vheight {
                    self.vtop = self.vtop + vheight;
                }
            },
            Action::EnterMode(new_mode) => {
                self.mode = *new_mode;
            },
            Action::InsertCharAtCursorPos(c) => {
                let row = self.buffer_line();
                match self.buffer.line_len(row) {
                    Some(n) => {
                        if self.cx as usize <= n {
                            self.buffer.insert(self.cx, row, *c);
                            self.cx = self.cx.saturating_add(1);
                        }
                    },
                    None => {
                        self.cx = self.cx.saturating_add(1);
                    },
                }
            },
            Action::DeleteCharAtCursorPos => {
                let row = self.buffer_line();
                match self.buffer.line_len(row) {
                    Some(n) => {
                        if (self.cx as usize) < n {
                            self.buffer.remove(self.cx, row);
                        }
                    },
                    None => {},
                }
            },
            Action::NewLine => {
                self.cx = 0;
                self.cy = self.cy.saturating_add(1);
            },
            Action::SetWaitingCmd(cmd) => {
                self.waiting_command = Some(*cmd);
            },
            Action::DeleteCurrentLine => {
                let line = self.buffer_line();
                let contents = self.current_line_contents();
                self.buffer.remove_line(line);
                self.undo_actions.push(Action::InsertLineAt(line, contents));
            },
            Action::Undo => {
                if let Some(undo_action) = self.undo_actions.pop() {
                    self.execute(&undo_action);
                }
            },
            Action::InsertLineAt(y, contents) => {
                if let Some(contents) = contents {
                    self.buffer.insert_line(*y, contents.clone());
                    if *y >= self.vtop && *y - self.vtop <= u16::MAX as usize {
                        self.cy = (*y - self.vtop) as u16;
                    } else {
                        self.vtop = *y;
                        self.cy = 0;
                    }
                }
            },
            Action::MoveLineToViewportCenter => {
                let viewport_center = self.vheight() / 2;
                if self.cy > viewport_center {
                    let distance = (self.cy - viewport_center) as usize;
                    if self.vtop > distance {
                        self.vtop = self.vtop.saturating_add(distance);
                        self.cy = viewport_center;
                    }
                } else if self.cy < viewport_center {
                    let distance = (viewport_center - self.cy) as usize;
                    let new_vtop = self.vtop.saturating_sub(distance);
                    let len = self.buffer.len();
                    if len > self.vtop.saturating_add(distance) && new_vtop != self.vtop {
                        self.vtop = new_vtop;
                        self.cy = viewport_center;
                    }
                }
            },
        }
    }

    /// Reads one input event: a resize stores the new screen size, then the
    /// event goes to the keymap of the current mode. Returns the action it
    /// produces, if any.
    pub fn handle_event(&mut self, ev: InputEvent) -> (r: Option<Action>)
        requires
            old(self)@.wf(),
            ev matches InputEvent::Resize(w, h) ==> w >= 1 && h >= 2,
        ensures
            final(self)@.wf(),
            (final(self)@, r) == old(self)@.on_event(ev),
    {
        if let InputEvent::Resize(w, h) = ev {
            self.size = (w, h);
        }
        match self.mode {
            Mode::Normal => self.handle_normal_event(ev),
            Mode::Insert => self.handle_insert_event(ev),
        }
    }

    /// Navigation mode: a pending leader consumes the event and is cleared;
    /// otherwise the navigation keymap applies.
    pub fn handle_normal_event(&mut self, ev: InputEvent) -> (r: Option<Action>)
        ensures
            match old(self)@.waiting {
                Some(cmd) => final(self)@ == (EditorModel { waiting: None, ..old(self)@ }) && r
                    == crate::input::spec_leader(cmd, ev),
                None => final(self)@ == old(self)@ && r == match ev {
                    InputEvent::Key(k) => crate::input::spec_normal_key(k),
                    _ => None,
                },
            },
    {
        if let Some(cmd) = self.waiting_command {
            self.waiting_command = None;
            return self.handle_waiting_command(cmd, ev);
        }
        match ev {
            InputEvent::Key(k) => normal_key_action(k),
            _ => None,
        }
    }

    /// Insertion mode: the insertion keymap.
    pub fn handle_insert_event(&self, ev: InputEvent) -> (r: Option<Action>)
        ensures
            r == match ev {
                InputEvent::Key(k) => crate::input::spec_insert_key(k),
                _ => None,
            },
    {
        match ev {
            InputEvent::Key(k) => insert_key_action(k),
            _ => None,
        }
    }

    /// Resolves the leader `cmd` with the event that follows it.
    pub fn handle_waiting_command(&self, cmd: char, ev: InputEvent) -> (r: Option<Action>)
        ensures
            r == crate::input::spec_leader(cmd, ev),
    {
        leader_action(cmd, ev)
    }

    /// The input mode.
    pub fn mode(&self) -> (r: Mode)
        ensures
            r == self@.mode,
    {
        self.mode
    }

    /// The leader key awaiting its second key, if any.
    pub fn waiting_command(&self) -> (r: Option<char>)
        ensures
            r == self@.waiting,
    {
        self.waiting_command
    }

    /// The cursor's (column, row) within the viewport.
    pub fn cursor(&self) -> (r: (u16, u16))
        ensures
            r == (self@.cx, self@.cy),
    {
        (self.cx, self.cy)
    }

    /// Absolute row of the first visible line.
    pub fn scroll_offset(&self) -> (r: usize)
        ensures
            r == self@.vtop,
    {
        self.vtop
    }

    /// The screen's (columns, rows).
    pub fn size(&self) -> (r: (u16, u16))
        ensures
            r == (self@.width, self@.height),
    {
        self.size
    }

    /// The number of entries on the undo stack.
    pub fn undo_len(&self) -> (r: usize)
        ensures
            r == self@.undo.len(),
    {
        self.undo_actions.len()
    }

    /// The buffer being edited.
    pub fn buffer(&self) -> (r: &Buffer)
        ensures
            r@ == self@.lines,
            r.spec_file() == self@.file,
    {
        &self.buffer
    }

}

} // verus!
