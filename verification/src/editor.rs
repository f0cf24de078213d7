//! The editor: a text store with a cursor and a viewport, driven by actions
//! in one of two modes.

use vstd::prelude::*;
use crate::client::Event;
use crate::keys::{action_for, modifiers_after, Action, KeyMapping};
use crate::lines::Lines;
use crate::model::{
    capacity, lemma_cursor_down_wf, lemma_cursor_left_wf, lemma_cursor_right_wf,
    lemma_cursor_up_wf, lemma_delete_wf, lemma_insert_wf, lemma_load_wf,
    EditorState, ModeState, OutcomeState, LINE_HEIGHT,
};
use crate::scan::{
    count_newlines, last_newline, lemma_count_bound, lemma_count_take_monotone,
    lemma_count_take_step, lemma_last_newline, lemma_line_start, lemma_line_start_from_last,
    lemma_next_line, lemma_next_newline, lemma_prev_line, line_start, next_newline, NEWLINE,
};
use crate::store::TextStore;
use crate::strings::{chars_of, pop_char, push_char, string_of};

verus! {

/// The editing mode.
#[derive(Debug, PartialEq, Eq)]
pub enum Mode {
    /// Actions edit the text.
    Edit,
    /// Actions edit the name of the file to save to, held here.
    Save(String),
}

impl View for Mode {
    type V = ModeState;

    open spec fn view(&self) -> ModeState {
        match self {
            Mode::Edit => ModeState::Edit,
            Mode::Save(name) => ModeState::Save(name@),
        }
    }
}

/// What the run loop is told after an event.
#[derive(Debug, PartialEq, Eq)]
pub enum Outcome {
    /// Nothing to do but to draw and go on.
    Continue,
    /// The text is to be written to the file of this name.
    Commit(String),
    /// The run loop is to end.
    Quit,
}

impl View for Outcome {
    type V = OutcomeState;

    open spec fn view(&self) -> OutcomeState {
        match self {
            Outcome::Continue => OutcomeState::Continue,
            Outcome::Commit(name) => OutcomeState::Commit(name@),
            Outcome::Quit => OutcomeState::Quit,
        }
    }
}

/// An editor. Its view is the state that the model speaks of.
pub struct Editor {
    line: usize,
    ins: usize,
    top_ins: usize,
    top: usize,
    column: usize,
    mode: Mode,
    total_lines: usize,
    width: usize,
    height: usize,
    buffer: TextStore,
}

impl View for Editor {
    type V = EditorState;

    closed spec fn view(&self) -> EditorState {
        EditorState {
            text: self.buffer@,
            ins: self.ins as int,
            line: self.line as int,
            column: self.column as int,
            top: self.top as int,
            top_ins: self.top_ins as int,
            total_lines: self.total_lines as int,
            width: self.width as int,
            height: self.height as int,
            mode: self.mode@,
        }
    }
}

impl Editor {
    /// The editor's state is consistent; every operation keeps it so.
    pub open spec fn wf(&self) -> bool {
        self@.wf()
    }

    /// An editor with an empty text, in edit mode, with no viewport yet.
    pub fn new() -> (editor: Editor)
        ensures
            editor@ == EditorState::initial(),
            editor.wf(),
    {
        let editor = Editor {
            top: 0,
            top_ins: 0,
            line: 0,
            ins: 0,
            column: 0,
            total_lines: 1,
            width: 0,
            height: 0,
            mode: Mode::Edit,
            buffer: TextStore::new(),
        };
        editor
    }

    /// Index of the nearest newline strictly before `scan`, or 0 if there is
    /// none; a `scan` beyond the text counts from its end.
    pub fn last_newline(&self, scan: usize) -> (found: usize)
        ensures
            found == last_newline(self@.text, scan as int),
    {
        let len = self.buffer.len();
        let mut i: usize = if scan > len {
            len
        } else {
            scan
        };
        while i > 0
            invariant
                i <= len == self.buffer@.len(),
                last_newline(self.buffer@, scan as int) == last_newline(self.buffer@, i as int),
            decreases i,
        {
            i -= 1;
            if self.buffer.get(i) == NEWLINE {
                return i;
            }
        }
        0
    }

    /// Index of the nearest newline at or after `scan`, or the length of the
    /// text if there is none.
    pub fn next_newline(&self, scan: usize) -> (found: usize)
        ensures
            found == next_newline(self@.text, scan as int),
    {
        let len = self.buffer.len();
        let mut i: usize = scan;
        while i < len
            invariant
                len == self.buffer@.len(),
                next_newline(self.buffer@, scan as int) == next_newline(self.buffer@, i as int),
            decreases len - i,
        {
            if self.buffer.get(i) == NEWLINE {
                return i;
            }
            i += 1;
        }
        len
    }

    /// Offset at which the line holding `offset` begins.
    fn line_start(&self, offset: usize) -> (start: usize)
        requires
            offset <= self@.text.len(),
        ensures
            start == line_start(self@.text, offset as int),
    {
        proof {
            lemma_line_start_from_last(self.buffer@, offset as int);
            lemma_last_newline(self.buffer@, offset as int);
        }
        let found = self.last_newline(offset);
        if found > 0 {
            found + 1
        } else if offset > 0 && self.buffer.get(0) == NEWLINE {
            1
        } else {
            0
        }
    }

    /// Number of text rows that fit the viewport.
    pub fn max_window_lines(&self) -> (rows: usize)
        ensures
            rows == self@.rows(),
    {
        self.height / LINE_HEIGHT
    }

    /// Row of the viewport on which the cursor stands.
    pub fn window_line(&self) -> (row: usize)
        requires
            self.wf(),
        ensures
            row == self@.window_line(),
    {
        self.line - self.top
    }

    /// Moves the cursor onto the line above, and the viewport with it where
    /// the cursor reaches its first line. Nothing happens on the first line
    /// of the text.
    pub fn move_up(&mut self)
        requires
            old(self).wf(),
        ensures
            final(self)@ == old(self)@.cursor_up(),
            final(self).wf(),
    {
        proof {
            lemma_cursor_up_wf(self@);
        }
        if self.line > 0 {
            let current = self.line_start(self.ins);
            proof {
                lemma_line_start(self.buffer@, self.ins as int);
                lemma_prev_line(self.buffer@, current as int);
            }
            let start = self.line_start(current - 1);
            let len = current - 1 - start;
            if self.column > len {
                self.column = len;
            }
            self.line -= 1;
            self.ins = start + self.column;
            if self.line <= self.top && self.top > 0 {
                self.top -= 1;
                self.top_ins = self.line_start(self.top_ins - 1);
            }
        }
    }

    /// Moves the cursor onto the line below, and the viewport with it where
    /// the cursor leaves its last row. Nothing happens on the last line of
    /// the text.
    pub fn move_down(&mut self)
        requires
            old(self).wf(),
        ensures
            final(self)@ == old(self)@.cursor_down(),
            final(self).wf(),
    {
        proof {
            lemma_cursor_down_wf(self@);
            lemma_count_take_monotone(self.buffer@, self.ins as int, self.ins as int);
        }
        if self.total_lines > 1 && self.line != self.total_lines - 1 {
            proof {
                lemma_next_line(self.buffer@, self.ins as int);
                lemma_next_newline(self.buffer@, next_newline(self.buffer@, self.ins as int) + 1);
            }
            let start = self.next_newline(self.ins) + 1;
            let end = self.next_newline(start);
            let len = end - start;
            if self.column > len {
                self.column = len;
            }
            self.line += 1;
            self.ins = start + self.column;
            if self.line - self.top >= self.max_window_lines() {
                self.top += 1;
                self.top_ins = self.next_newline(self.top_ins) + 1;
            }
        }
    }

    /// Applies `action` as edit mode does.
    pub fn action_edit(&mut self, action: Action)
        requires
            old(self).wf(),
        ensures
            final(self)@ == old(self)@.edit(action),
            final(self).wf(),
    {
        match action {
            Action::Save => {
                self.mode = Mode::Save(String::new());
            },
            Action::Insert(c) => {
                proof {
                    lemma_insert_wf(self@, c);
                    lemma_count_bound(self.buffer@);
                    lemma_count_take_monotone(self.buffer@, self.ins as int, self.ins as int);
                    lemma_line_start(self.buffer@, self.ins as int);
                }
                if self.buffer.len() < usize::MAX - 1 {
                    let _ = self.buffer.insert(self.ins, c);
                    self.ins += 1;
                    if c == NEWLINE {
                        self.column = 0;
                        self.line += 1;
                        self.total_lines += 1;
                    } else {
                        self.column += 1;
                    }
                }
            },
            Action::Delete => {
                proof {
                    lemma_delete_wf(self@);
                }
                if self.ins > 0 {
                    self.ins -= 1;
                    let removed = self.buffer.remove(self.ins);
                    if removed == Some(NEWLINE) {
                        self.total_lines -= 1;
                        self.line -= 1;
                        let start = self.line_start(self.ins);
                        proof {
                            lemma_line_start(self.buffer@, self.ins as int);
                        }
                        self.column = self.ins - start;
                        if self.line < self.top {
                            self.top = self.line;
                            self.top_ins = start;
                        }
                    } else if self.column > 0 {
                        self.column -= 1;
                    }
                }
            },
            Action::CursorUp => self.move_up(),
            Action::CursorDown => self.move_down(),
            Action::CursorLeft => {
                proof {
                    lemma_cursor_left_wf(self@);
                }
                if self.column > 0 {
                    self.column -= 1;
                    self.ins -= 1;
                }
            },
            Action::CursorRight => {
                proof {
                    lemma_cursor_right_wf(self@);
                    lemma_next_newline(self.buffer@, self.ins as int);
                    lemma_line_start(self.buffer@, self.ins as int);
                }
                let end = self.next_newline(self.ins);
                let remaining = end - self.ins;
                if remaining > 0 {
                    self.column += 1;
                    self.ins += 1;
                }
            },
            _ => {},
        }
    }

    /// Applies `action` as save mode does, and returns the name of the file
    /// to write when the action commits. Outside save mode nothing happens.
    pub fn action_save(&mut self, action: Action) -> (commit: Option<String>)
        requires
            old(self).wf(),
        ensures
            final(self).wf(),
            match old(self)@.mode {
                ModeState::Save(name) => {
                    &&& final(self)@ == old(self)@.save(name, action)
                    &&& action == Action::Insert(NEWLINE) ==> commit.is_some()
                        && commit.unwrap()@ == name
                    &&& action != Action::Insert(NEWLINE) ==> commit.is_none()
                },
                ModeState::Edit => final(self)@ == old(self)@ && commit.is_none(),
            },
    {
        match action {
            Action::Insert(c) => {
                if c == NEWLINE {
                    let mut mode = Mode::Edit;
                    std::mem::swap(&mut self.mode, &mut mode);
                    match mode {
                        Mode::Save(name) => Some(name),
                        Mode::Edit => None,
                    }
                } else {
                    match &mut self.mode {
                        Mode::Save(name) => {
                            push_char(name, c);
                        },
                        Mode::Edit => {},
                    }
                    None
                }
            },
            Action::Delete => {
                match &mut self.mode {
                    Mode::Save(name) => {
                        let _ = pop_char(name);
                    },
                    Mode::Edit => {},
                }
                None
            },
            _ => None,
        }
    }

    /// Applies `action` as the current mode does, and says what the run loop
    /// is to do about it.
    pub fn apply(&mut self, action: Action) -> (outcome: Outcome)
        requires
            old(self).wf(),
        ensures
            final(self)@ == old(self)@.apply(action),
            outcome@ == old(self)@.outcome(action),
            final(self).wf(),
    {
        match &self.mode {
            Mode::Edit => {
                self.action_edit(action);
                match action {
                    Action::Quit => Outcome::Quit,
                    _ => Outcome::Continue,
                }
            },
            Mode::Save(_) => {
                match self.action_save(action) {
                    Some(name) => Outcome::Commit(name),
                    None => Outcome::Continue,
                }
            },
        }
    }

    /// The viewport takes the size that a resize event gives.
    pub fn resize(&mut self, width: isize, height: isize)
        requires
            old(self).wf(),
        ensures
            final(self)@ == old(self)@.resize(width, height),
            final(self).wf(),
    {
        self.width = #[verifier::truncate] (width as usize);
        self.height = #[verifier::truncate] (height as usize);
    }

    /// Takes one event: a key event becomes an action under `mapping` and is
    /// applied, a resize event sets the viewport, a mouse event changes
    /// nothing.
    pub fn handle(&mut self, mapping: &mut KeyMapping, event: Event) -> (outcome: Outcome)
        requires
            old(self).wf(),
        ensures
            final(self).wf(),
            match event {
                Event::Key(k) => {
                    let action = action_for(modifiers_after(*old(mapping), k), k);
                    &&& *final(mapping) == modifiers_after(*old(mapping), k)
                    &&& final(self)@ == old(self)@.apply(action)
                    &&& outcome@ == old(self)@.outcome(action)
                },
                Event::Resize(width, height) => {
                    &&& *final(mapping) == *old(mapping)
                    &&& final(self)@ == old(self)@.resize(width, height)
                    &&& outcome@ == OutcomeState::Continue
                },
                Event::Mouse(_) => {
                    &&& *final(mapping) == *old(mapping)
                    &&& final(self)@ == old(self)@
                    &&& outcome@ == OutcomeState::Continue
                },
            },
    {
        match event {
            Event::Key(k) => {
                let action = mapping.get_action(k);
                self.apply(action)
            },
            Event::Resize(width, height) => {
                self.resize(width, height);
                Outcome::Continue
            },
            Event::Mouse(_) => Outcome::Continue,
        }
    }

    /// Puts `text` in front of the document and moves cursor and viewport to
    /// its start. The whole must stay within the capacity of a text.
    pub fn load(&mut self, text: &str)
        requires
            old(self).wf(),
            text@.len() + old(self)@.text.len() <= capacity(),
        ensures
            final(self)@ == old(self)@.load(text@),
            final(self).wf(),
    {
        proof {
            lemma_load_wf(self@, text@);
            lemma_count_bound(text@);
            lemma_count_bound(self.buffer@);
        }
        let chars = chars_of(text);
        self.buffer.reserve(text.len());
        let mut i: usize = 0;
        while i < chars.len()
            invariant
                i <= chars@.len(),
                chars@ == text@,
                chars@.len() + old(self).buffer@.len() <= capacity(),
                count_newlines(chars@) + old(self).total_lines <= usize::MAX,
                self.buffer@ == chars@.take(i as int) + old(self).buffer@,
                self.total_lines == old(self).total_lines + count_newlines(chars@.take(i as int)),
                self.mode == old(self).mode,
                self.width == old(self).width,
                self.height == old(self).height,
            decreases chars@.len() - i,
        {
            let c = chars[i];
            proof {
                lemma_count_take_step(chars@, i as int);
                lemma_count_take_monotone(chars@, i as int + 1, i as int + 1);
            }
            if c == NEWLINE {
                self.total_lines += 1;
            }
            let _ = self.buffer.insert(i, c);
            i += 1;
        }
        assert(chars@.take(i as int) =~= chars@);
        self.ins = 0;
        self.line = 0;
        self.column = 0;
        self.top = 0;
        self.top_ins = 0;
    }

    /// A walk over the lines of the text, from offset `from` on.
    pub fn lines(&self, from: usize) -> (lines: Lines<'_>)
        ensures
            lines.text() == self@.text,
            lines.position() == from,
    {
        Lines::new(&self.buffer, from)
    }

    /// The whole text, as it is to be written on saving.
    pub fn save(&self) -> (text: String)
        ensures
            text@ == self@.text,
    {
        let chars = self.buffer.chars();
        string_of(&chars)
    }

    /// Number of characters in the text.
    pub fn len(&self) -> (len: usize)
        ensures
            len == self@.text.len(),
    {
        self.buffer.len()
    }

    /// Offset at which the next character is inserted.
    pub fn ins(&self) -> (ins: usize)
        ensures
            ins == self@.ins,
    {
        self.ins
    }

    /// Index of the line that holds the cursor.
    pub fn line(&self) -> (line: usize)
        ensures
            line == self@.line,
    {
        self.line
    }

    /// Distance of the cursor from the start of its line.
    pub fn column(&self) -> (column: usize)
        ensures
            column == self@.column,
    {
        self.column
    }

    /// Index of the first visible line.
    pub fn top(&self) -> (top: usize)
        ensures
            top == self@.top,
    {
        self.top
    }

    /// Offset at which the first visible line begins.
    pub fn top_ins(&self) -> (top_ins: usize)
        ensures
            top_ins == self@.top_ins,
    {
        self.top_ins
    }

    /// Number of lines of the document.
    pub fn total_lines(&self) -> (total: usize)
        ensures
            total == self@.total_lines,
    {
        self.total_lines
    }

    /// Width of the viewport.
    pub fn width(&self) -> (width: usize)
        ensures
            width == self@.width,
    {
        self.width
    }

    /// Height of the viewport.
    pub fn height(&self) -> (height: usize)
        ensures
            height == self@.height,
    {
        self.height
    }

    /// The mode that the editor is in.
    pub fn mode(&self) -> (mode: &Mode)
        ensures
            mode@ == self@.mode,
    {
        &self.mode
    }
}

} // verus!
