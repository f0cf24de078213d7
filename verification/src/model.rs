//! The editor as mathematics: its state, what makes a state consistent, and
//! the transition that each action stands for. The executable editor is
//! specified against these functions, and the laws of the editor are proved
//! about them.

use vstd::prelude::*;
use crate::keys::Action;
use crate::scan::{
    count_newlines, lemma_count_concat, lemma_count_insert, lemma_count_remove, lemma_count_take_monotone,
    lemma_count_take_step, lemma_line_start, lemma_next_line, lemma_next_newline,
    lemma_prefix_scans, lemma_prev_line, lemma_within_line, line_start, next_newline, no_newline,
    NEWLINE,
};

verus! {

/// Height of a line of text on screen.
pub const LINE_HEIGHT: usize = 14;

/// Width of a character on screen.
pub const CHAR_WIDTH: usize = 8;

/// The most characters that a text may hold: one less than `usize::MAX`, so
/// that the number of its lines still fits a `usize`.
pub open spec fn capacity() -> int {
    usize::MAX - 1
}

/// The editing mode, as a mathematical value.
pub enum ModeState {
    /// Actions edit the text.
    Edit,
    /// Actions edit the name of the file to save to, held here.
    Save(Seq<char>),
}

/// The state of an editor, as a mathematical value.
pub struct EditorState {
    /// The document.
    pub text: Seq<char>,
    /// Offset at which the next character is inserted.
    pub ins: int,
    /// Index of the line that holds `ins`.
    pub line: int,
    /// Distance of `ins` from the start of its line.
    pub column: int,
    /// Index of the first visible line.
    pub top: int,
    /// Offset at which the first visible line begins.
    pub top_ins: int,
    /// Number of lines of the document.
    pub total_lines: int,
    /// Width of the viewport.
    pub width: int,
    /// Height of the viewport.
    pub height: int,
    pub mode: ModeState,
}

impl EditorState {
    /// The state of an editor that has just been made.
    pub open spec fn initial() -> EditorState {
        EditorState {
            text: Seq::empty(),
            ins: 0,
            line: 0,
            column: 0,
            top: 0,
            top_ins: 0,
            total_lines: 1,
            width: 0,
            height: 0,
            mode: ModeState::Edit,
        }
    }

    /// The state is consistent: the text is within its capacity, the cursor
    /// lies in the text, `line` and `column` say where, `total_lines` counts
    /// the lines, the first visible line begins at `top_ins` and is not
    /// below the cursor, and a file name being typed holds no newline.
    pub open spec fn wf(self) -> bool {
        &&& self.text.len() <= capacity()
        &&& 0 <= self.ins <= self.text.len()
        &&& self.total_lines == count_newlines(self.text) + 1
        &&& self.line == count_newlines(self.text.take(self.ins))
        &&& self.column == self.ins - line_start(self.text, self.ins)
        &&& 0 <= self.top_ins <= self.text.len()
        &&& line_start(self.text, self.top_ins) == self.top_ins
        &&& self.top == count_newlines(self.text.take(self.top_ins))
        &&& self.top <= self.line
        &&& 0 <= self.width
        &&& 0 <= self.height
        &&& self.mode matches ModeState::Save(name) ==> no_newline(name)
    }

    /// Number of text rows that fit the viewport.
    pub open spec fn rows(self) -> int {
        self.height / (LINE_HEIGHT as int)
    }

    /// Row of the viewport on which the cursor stands.
    pub open spec fn window_line(self) -> int {
        self.line - self.top
    }

    /// Length of the line that the cursor is on.
    pub open spec fn line_len(self) -> int {
        next_newline(self.text, self.ins) - line_start(self.text, self.ins)
    }

    /// `Insert(c)` while editing: `c` becomes the character at `ins` and the
    /// cursor moves behind it; a newline starts a new line. A text that is
    /// at its capacity takes no more.
    pub open spec fn insert(self, c: char) -> EditorState {
        if self.text.len() >= capacity() {
            self
        } else if c == NEWLINE {
            EditorState {
                text: self.text.insert(self.ins, c),
                ins: self.ins + 1,
                column: 0,
                line: self.line + 1,
                total_lines: self.total_lines + 1,
                ..self
            }
        } else {
            EditorState {
                text: self.text.insert(self.ins, c),
                ins: self.ins + 1,
                column: self.column + 1,
                ..self
            }
        }
    }

    /// `Delete` while editing: the character before the cursor goes, and the
    /// cursor moves onto its place. Removing a newline joins two lines, and
    /// the viewport follows the cursor where that line was the first visible
    /// one. Nothing happens at the start of the text.
    pub open spec fn delete(self) -> EditorState {
        if self.ins <= 0 {
            self
        } else {
            let ins = self.ins - 1;
            let text = self.text.remove(ins);
            if self.text[ins] == NEWLINE {
                let line = self.line - 1;
                let start = line_start(text, ins);
                EditorState {
                    text,
                    ins,
                    line,
                    column: ins - start,
                    total_lines: self.total_lines - 1,
                    top: if line < self.top {
                        line
                    } else {
                        self.top
                    },
                    top_ins: if line < self.top {
                        start
                    } else {
                        self.top_ins
                    },
                    ..self
                }
            } else {
                EditorState {
                    text,
                    ins,
                    column: if self.column > 0 {
                        self.column - 1
                    } else {
                        0
                    },
                    ..self
                }
            }
        }
    }

    /// `CursorLeft`: one place back, but never onto the line above.
    pub open spec fn cursor_left(self) -> EditorState {
        if self.column > 0 {
            EditorState { column: self.column - 1, ins: self.ins - 1, ..self }
        } else {
            self
        }
    }

    /// `CursorRight`: one place on, but never onto the line below.
    pub open spec fn cursor_right(self) -> EditorState {
        if next_newline(self.text, self.ins) - self.ins > 0 {
            EditorState { column: self.column + 1, ins: self.ins + 1, ..self }
        } else {
            self
        }
    }

    /// `CursorUp`: onto the line above, at the same column or at the end of
    /// that line if it is shorter. When the cursor then stands on the first
    /// visible line or above it, the viewport moves one line up, as far as
    /// there is one. Nothing happens on the first line.
    pub open spec fn cursor_up(self) -> EditorState {
        if self.line <= 0 {
            self
        } else {
            let current = line_start(self.text, self.ins);
            let start = line_start(self.text, current - 1);
            let len = current - 1 - start;
            let column = if self.column > len {
                len
            } else {
                self.column
            };
            let line = self.line - 1;
            let scroll = line - self.top <= 0 && self.top > 0;
            EditorState {
                ins: start + column,
                column,
                line,
                top: if scroll {
                    self.top - 1
                } else {
                    self.top
                },
                top_ins: if scroll {
                    line_start(self.text, self.top_ins - 1)
                } else {
                    self.top_ins
                },
                ..self
            }
        }
    }

    /// `CursorDown`: onto the line below, at the same column or at the end of
    /// that line if it is shorter. When the cursor's row then reaches the
    /// number of rows that fit, the viewport moves one line down. Nothing
    /// happens on the last line.
    pub open spec fn cursor_down(self) -> EditorState {
        if self.line + 1 >= self.total_lines {
            self
        } else {
            let start = next_newline(self.text, self.ins) + 1;
            let len = next_newline(self.text, start) - start;
            let column = if self.column > len {
                len
            } else {
                self.column
            };
            let line = self.line + 1;
            let scroll = line - self.top >= self.rows();
            EditorState {
                ins: start + column,
                column,
                line,
                top: if scroll {
                    self.top + 1
                } else {
                    self.top
                },
                top_ins: if scroll {
                    next_newline(self.text, self.top_ins) + 1
                } else {
                    self.top_ins
                },
                ..self
            }
        }
    }

    /// What `action` does to a state in edit mode.
    pub open spec fn edit(self, action: Action) -> EditorState {
        match action {
            Action::Save => EditorState { mode: ModeState::Save(Seq::empty()), ..self },
            Action::Insert(c) => self.insert(c),
            Action::Delete => self.delete(),
            Action::CursorUp => self.cursor_up(),
            Action::CursorDown => self.cursor_down(),
            Action::CursorLeft => self.cursor_left(),
            Action::CursorRight => self.cursor_right(),
            Action::Quit | Action::Noop => self,
        }
    }

    /// What `action` does to a state in save mode, in which `name` is the
    /// file name typed so far: a newline commits and returns to edit mode, any
    /// other character is added to the name, `Delete` takes the name's last
    /// character away, and every other action is ignored.
    pub open spec fn save(self, name: Seq<char>, action: Action) -> EditorState {
        match action {
            Action::Insert(c) => if c == NEWLINE {
                EditorState { mode: ModeState::Edit, ..self }
            } else {
                EditorState { mode: ModeState::Save(name.push(c)), ..self }
            },
            Action::Delete => if name.len() > 0 {
                EditorState { mode: ModeState::Save(name.drop_last()), ..self }
            } else {
                self
            },
            _ => self,
        }
    }

    /// What `action` does to a state, by its mode.
    pub open spec fn apply(self, action: Action) -> EditorState {
        match self.mode {
            ModeState::Edit => self.edit(action),
            ModeState::Save(name) => self.save(name, action),
        }
    }

    /// The state after a whole sequence of actions.
    pub open spec fn apply_all(self, actions: Seq<Action>) -> EditorState
        decreases actions.len(),
    {
        if actions.len() == 0 {
            self
        } else {
            self.apply_all(actions.drop_last()).apply(actions.last())
        }
    }

    /// What the run loop is told after `action`: to stop on `Quit` in edit
    /// mode, to write the text to the file named so far on a newline in save
    /// mode, and to go on otherwise.
    pub open spec fn outcome(self, action: Action) -> OutcomeState {
        match self.mode {
            ModeState::Edit => if action == Action::Quit {
                OutcomeState::Quit
            } else {
                OutcomeState::Continue
            },
            ModeState::Save(name) => if action == Action::Insert(NEWLINE) {
                OutcomeState::Commit(name)
            } else {
                OutcomeState::Continue
            },
        }
    }

    /// The viewport takes the size that a resize event gives, each number
    /// reinterpreted as unsigned.
    pub open spec fn resize(self, width: isize, height: isize) -> EditorState {
        EditorState { width: (width as usize) as int, height: (height as usize) as int, ..self }
    }

    /// `text` is put in front of the document, and cursor and viewport go to
    /// its start.
    pub open spec fn load(self, text: Seq<char>) -> EditorState {
        EditorState {
            text: text + self.text,
            ins: 0,
            line: 0,
            column: 0,
            top: 0,
            top_ins: 0,
            total_lines: self.total_lines + count_newlines(text),
            ..self
        }
    }
}

/// What the run loop is told after an action, as a mathematical value.
pub enum OutcomeState {
    /// Nothing to do but to draw and go on.
    Continue,
    /// The text is to be written to the file of this name.
    Commit(Seq<char>),
    /// The run loop is to end.
    Quit,
}

/// In a consistent state the first visible line begins at or before the
/// cursor.
pub proof fn lemma_top_before_cursor(s: EditorState)
    requires
        s.wf(),
    ensures
        s.top_ins <= s.ins,
        s.top_ins <= line_start(s.text, s.ins),
{
    lemma_line_start(s.text, s.ins);
    lemma_line_start(s.text, s.top_ins);
    let start = line_start(s.text, s.ins);
    if s.top_ins > start {
        lemma_count_take_monotone(s.text, start, s.top_ins);
        if s.top_ins <= s.ins {
            assert(s.text[s.top_ins - 1] != NEWLINE);
        } else {
            lemma_count_take_monotone(s.text, s.ins, s.top_ins - 1);
            lemma_count_take_step(s.text, s.top_ins - 1);
        }
    }
}

/// The initial state is consistent.
pub proof fn lemma_initial_wf()
    ensures
        EditorState::initial().wf(),
{
    let s = EditorState::initial();
    assert(s.text.take(0) =~= s.text);
}

/// Inserting keeps a state consistent.
pub proof fn lemma_insert_wf(s: EditorState, c: char)
    requires
        s.wf(),
    ensures
        s.insert(c).wf(),
{
    if s.text.len() < capacity() {
        let t = s.text.insert(s.ins, c);
        lemma_top_before_cursor(s);
        lemma_count_insert(s.text, s.ins, c);
        assert(t.take(s.ins) =~= s.text.take(s.ins));
        assert(t.take(s.top_ins) =~= s.text.take(s.top_ins));
        lemma_count_take_step(t, s.ins);
        lemma_prefix_scans(t, s.text, s.ins);
        lemma_prefix_scans(t, s.text, s.top_ins);
    }
}

/// Deleting keeps a state consistent.
pub proof fn lemma_delete_wf(s: EditorState)
    requires
        s.wf(),
    ensures
        s.delete().wf(),
{
    if s.ins > 0 {
        let ins = s.ins - 1;
        let t = s.text.remove(ins);
        lemma_top_before_cursor(s);
        lemma_count_remove(s.text, ins);
        assert(t.take(ins) =~= s.text.take(ins));
        lemma_count_take_step(s.text, ins);
        lemma_prefix_scans(t, s.text, ins);
        lemma_line_start(t, ins);
        lemma_line_start(s.text, s.ins);
        if s.top_ins <= ins {
            assert(t.take(s.top_ins) =~= s.text.take(s.top_ins));
            lemma_prefix_scans(t, s.text, s.top_ins);
            lemma_count_take_monotone(s.text, s.top_ins, ins);
        }
    }
}

/// Moving left keeps a state consistent.
pub proof fn lemma_cursor_left_wf(s: EditorState)
    requires
        s.wf(),
    ensures
        s.cursor_left().wf(),
{
    if s.column > 0 {
        lemma_line_start(s.text, s.ins);
        lemma_count_take_step(s.text, s.ins - 1);
    }
}

/// Moving right keeps a state consistent.
pub proof fn lemma_cursor_right_wf(s: EditorState)
    requires
        s.wf(),
    ensures
        s.cursor_right().wf(),
{
    lemma_next_newline(s.text, s.ins);
    if next_newline(s.text, s.ins) - s.ins > 0 {
        lemma_count_take_step(s.text, s.ins);
    }
}

/// Moving up keeps a state consistent.
pub proof fn lemma_cursor_up_wf(s: EditorState)
    requires
        s.wf(),
    ensures
        s.cursor_up().wf(),
{
    if s.line > 0 {
        let t = s.text;
        let current = line_start(t, s.ins);
        lemma_line_start(t, s.ins);
        assert(current > 0) by {
            if current == 0 {
                assert(t.take(0) =~= Seq::<char>::empty());
            }
        }
        lemma_prev_line(t, current);
        let start = line_start(t, current - 1);
        let n = s.cursor_up();
        lemma_within_line(t, start, n.ins);
        if n.line - s.top <= 0 && s.top > 0 {
            assert(s.top_ins > 0) by {
                if s.top_ins == 0 {
                    assert(t.take(0) =~= Seq::<char>::empty());
                }
            }
            lemma_prev_line(t, s.top_ins);
        }
    }
}

/// Moving down keeps a state consistent.
pub proof fn lemma_cursor_down_wf(s: EditorState)
    requires
        s.wf(),
    ensures
        s.cursor_down().wf(),
{
    if s.line + 1 < s.total_lines {
        let t = s.text;
        lemma_line_start(t, s.ins);
        lemma_next_line(t, s.ins);
        let start = next_newline(t, s.ins) + 1;
        let n = s.cursor_down();
        lemma_next_newline(t, start);
        lemma_within_line(t, start, n.ins);
        if n.line - s.top >= s.rows() {
            lemma_next_line(t, s.top_ins);
        }
    }
}

/// Loading keeps a state consistent where the text stays within capacity.
pub proof fn lemma_load_wf(s: EditorState, text: Seq<char>)
    requires
        s.wf(),
        text.len() + s.text.len() <= capacity(),
    ensures
        s.load(text).wf(),
{
    lemma_count_concat(text, s.text);
    assert(s.load(text).text.take(0) =~= Seq::<char>::empty());
}

/// Every action keeps a state consistent.
pub proof fn lemma_apply_wf(s: EditorState, action: Action)
    requires
        s.wf(),
    ensures
        s.apply(action).wf(),
{
    match s.mode {
        ModeState::Edit => {
            match action {
                Action::Insert(c) => lemma_insert_wf(s, c),
                Action::Delete => lemma_delete_wf(s),
                Action::CursorUp => lemma_cursor_up_wf(s),
                Action::CursorDown => lemma_cursor_down_wf(s),
                Action::CursorLeft => lemma_cursor_left_wf(s),
                Action::CursorRight => lemma_cursor_right_wf(s),
                _ => {},
            }
        },
        ModeState::Save(_) => {},
    }
}

} // verus!
