//! What the editor shows: the visible lines, the caret, a status overlay, and
//! in save mode the prompt for the file name.

use vstd::prelude::*;
use vstd::string::StringExecFns;
use vstd::string::StrSliceExecFns;
use crate::client::lemma_decimal_no_newline;
use crate::draw::{draws, encoded, law_command_is_one_line, Color, Draw, DrawCommand};
use crate::editor::{Editor, Mode};
use crate::fields::{decimal, push_decimal};
use crate::model::{EditorState, ModeState, CHAR_WIDTH, LINE_HEIGHT};
use crate::scan::{
    last_newline, lemma_lines_no_newline, lemma_next_newline, lines_from, no_newline, single_line,
};

verus! {

/// One text command for each of `lines`, from the top of the display down,
/// a line's height apart.
pub open spec fn text_rows(lines: Seq<Seq<char>>) -> Seq<Draw> {
    Seq::new(
        lines.len(),
        |row: int| Draw::Text { x: 0, y: row * (LINE_HEIGHT as int), text: lines[row] },
    )
}

/// The lines that are shown: as many as fit the viewport, counted from the
/// offset that `last_newline` finds before the start of the first visible
/// line.
pub open spec fn visible_lines(s: EditorState) -> Seq<Seq<char>> {
    let rows = if s.rows() < 0 {
        0nat
    } else {
        s.rows() as nat
    };
    lines_from(s.text, last_newline(s.text, s.top_ins), rows)
}

/// The caret: a black bar one unit wide and a line high, at the cursor's
/// column and line.
pub open spec fn caret(s: EditorState) -> Draw {
    Draw::Rect {
        x: s.column * (CHAR_WIDTH as int),
        y: s.line * (LINE_HEIGHT as int),
        width: 1,
        height: LINE_HEIGHT as int,
        color: Color::Black,
    }
}

/// The first line of the status overlay: the cursor's line counted from one,
/// the number of lines, the column, and the cursor's row in the viewport.
pub open spec fn status_text(s: EditorState) -> Seq<char> {
    "L "@ + decimal((s.line + 1) as nat) + "/"@ + decimal(s.total_lines as nat) + " : "@ + decimal(
        s.column as nat,
    ) + " "@ + decimal(s.window_line() as nat)
}

/// The second line of the status overlay: the cursor's offset.
pub open spec fn offset_text(s: EditorState) -> Seq<char> {
    "I"@ + decimal(s.ins as nat)
}

/// Where the status overlay begins, so that it ends at the right edge of the
/// viewport: a line's height to the left of it for each character of the
/// first status line, and at the left edge where the viewport is narrower.
pub open spec fn status_x(s: EditorState) -> int {
    let wide = (LINE_HEIGHT as int) * status_text(s).len();
    if s.width > wide {
        s.width - wide
    } else {
        0
    }
}

/// The status overlay: two lines of text at the top right.
pub open spec fn status(s: EditorState) -> Seq<Draw> {
    seq![
        Draw::Text { x: status_x(s), y: 0, text: status_text(s) },
        Draw::Text { x: status_x(s), y: LINE_HEIGHT as int, text: offset_text(s) },
    ]
}

/// The row that the save prompt is drawn on: the last that fits the viewport.
pub open spec fn prompt_row(s: EditorState) -> int {
    if s.rows() > 0 {
        s.rows() - 1
    } else {
        0
    }
}

/// The prompt of save mode: the last row is wiped and asks for the file name,
/// showing what has been typed of it. Nothing in edit mode.
pub open spec fn save_overlay(s: EditorState) -> Seq<Draw> {
    match s.mode {
        ModeState::Edit => Seq::empty(),
        ModeState::Save(name) => seq![
            Draw::Rect {
                x: 0,
                y: prompt_row(s) * (LINE_HEIGHT as int),
                width: s.width,
                height: LINE_HEIGHT as int,
                color: Color::White,
            },
            Draw::Text {
                x: 0,
                y: prompt_row(s) * (LINE_HEIGHT as int),
                text: "Save to file: "@ + name,
            },
        ],
    }
}

/// All that is drawn for a state, in the order in which it is drawn: the
/// display is wiped, then come the visible lines from the top down, the
/// caret, the status overlay, and in save mode the prompt.
pub open spec fn picture(s: EditorState) -> Seq<Draw> {
    seq![Draw::Clear] + text_rows(visible_lines(s)) + seq![caret(s)] + status(s) + save_overlay(s)
}

/// Whatever is drawn for a consistent state goes out line by line: each
/// command of the picture is sent as exactly one line.
pub proof fn law_picture_is_sent_line_by_line(s: EditorState)
    requires
        s.wf(),
    ensures
        forall|i: int|
            0 <= i < picture(s).len() ==> single_line(encoded(#[trigger] picture(s)[i])),
{
    let rows = text_rows(visible_lines(s));
    let rows_nat = if s.rows() < 0 {
        0nat
    } else {
        s.rows() as nat
    };
    lemma_lines_no_newline(s.text, last_newline(s.text, s.top_ins), rows_nat);
    reveal_strlit("L ");
    reveal_strlit("/");
    reveal_strlit(" : ");
    reveal_strlit(" ");
    reveal_strlit("I");
    reveal_strlit("Save to file: ");
    lemma_decimal_no_newline((s.line + 1) as nat);
    lemma_decimal_no_newline(s.total_lines as nat);
    lemma_decimal_no_newline(s.column as nat);
    lemma_decimal_no_newline(s.window_line() as nat);
    lemma_decimal_no_newline(s.ins as nat);
    assert(no_newline(status_text(s)));
    assert(no_newline(offset_text(s)));
    assert forall|i: int| 0 <= i < picture(s).len() implies single_line(
        encoded(#[trigger] picture(s)[i]),
    ) by {
        let d = picture(s)[i];
        if 1 <= i < 1 + rows.len() {
            assert(d == rows[i - 1]);
            assert(no_newline(visible_lines(s)[i - 1]));
        } else if i > 1 + rows.len() + 2 {
            match s.mode {
                ModeState::Edit => {},
                ModeState::Save(name) => {
                    assert(no_newline("Save to file: "@ + name));
                },
            }
        }
        law_command_is_one_line(d);
    }
}

impl Editor {
    /// The commands that draw the editor as it is now.
    pub fn render(&self) -> (commands: Vec<DrawCommand>)
        requires
            self.wf(),
        ensures
            draws(commands@) == picture(self@),
    {
        let mut commands: Vec<DrawCommand> = Vec::new();
        commands.push(DrawCommand::Clear);
        let rows = self.max_window_lines();
        let start = self.last_newline(self.top_ins());
        let mut lines = self.lines(start);
        let ghost text = self@.text;
        let ghost mut done: Seq<Seq<char>> = Seq::empty();
        let mut row: usize = 0;
        while row < rows
            invariant
                row <= rows,
                done.len() == row,
                lines.text() == text,
                0 <= lines.position(),
                lines_from(text, start as int, rows as nat) == done + lines_from(
                    text,
                    lines.position(),
                    (rows - row) as nat,
                ),
                draws(commands@) == seq![Draw::Clear] + text_rows(done),
            ensures
                lines_from(text, start as int, rows as nat) == done,
                draws(commands@) == seq![Draw::Clear] + text_rows(done),
            decreases rows - row,
        {
            let ghost position = lines.position();
            match lines.next() {
                Some(line) => {
                    proof {
                        lemma_next_newline(text, position);
                        done = done.push(line@);
                    }
                    let ghost before = draws(commands@);
                    commands.push(
                        DrawCommand::Text { x: 0, y: (row as u128) * (LINE_HEIGHT as u128), text: line },
                    );
                    assert(draws(commands@) =~= before.push(commands@.last()@));
                    row += 1;
                },
                None => {
                    break ;
                },
            }
        }
        let x = (self.column() as u128) * (CHAR_WIDTH as u128);
        let y = (self.line() as u128) * (LINE_HEIGHT as u128);
        commands.push(
            DrawCommand::Rect {
                x,
                y,
                width: 1,
                height: LINE_HEIGHT as u128,
                color: Color::Black,
            },
        );
        let mut overlay = self.render_debug();
        commands.append(&mut overlay);
        let mut prompt = self.render_save();
        commands.append(&mut prompt);
        commands
    }

    /// The commands that draw the prompt of save mode; none in edit mode.
    pub fn render_save(&self) -> (commands: Vec<DrawCommand>)
        ensures
            draws(commands@) == save_overlay(self@),
    {
        let mut commands: Vec<DrawCommand> = Vec::new();
        match self.mode() {
            Mode::Edit => {},
            Mode::Save(name) => {
                let rows = self.max_window_lines();
                let row = if rows > 0 {
                    rows - 1
                } else {
                    0
                };
                let y = (row as u128) * (LINE_HEIGHT as u128);
                commands.push(
                    DrawCommand::Rect {
                        x: 0,
                        y,
                        width: self.width() as u128,
                        height: LINE_HEIGHT as u128,
                        color: Color::White,
                    },
                );
                let mut text = String::from_str("Save to file: ");
                text.append(name.as_str());
                commands.push(DrawCommand::Text { x: 0, y, text });
            },
        }
        commands
    }

    /// The commands that draw the status overlay.
    pub fn render_debug(&self) -> (commands: Vec<DrawCommand>)
        requires
            self.wf(),
        ensures
            draws(commands@) == status(self@),
    {
        let mut cursor = String::from_str("L ");
        push_decimal(&mut cursor, self.line() as u128 + 1);
        cursor.append("/");
        push_decimal(&mut cursor, self.total_lines() as u128);
        cursor.append(" : ");
        push_decimal(&mut cursor, self.column() as u128);
        cursor.append(" ");
        push_decimal(&mut cursor, self.window_line() as u128);
        let mut insert = String::from_str("I");
        push_decimal(&mut insert, self.ins() as u128);
        let wide = (LINE_HEIGHT as u128) * (cursor.as_str().unicode_len() as u128);
        let width = self.width() as u128;
        let x = if width > wide {
            width - wide
        } else {
            0
        };
        let mut commands: Vec<DrawCommand> = Vec::new();
        commands.push(DrawCommand::Text { x, y: 0, text: cursor });
        commands.push(DrawCommand::Text { x, y: LINE_HEIGHT as u128, text: insert });
        commands
    }
}

} // verus!
