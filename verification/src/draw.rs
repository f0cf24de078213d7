//! Drawing commands: what the editor asks the display to draw, and the line
//! that each command is sent as.

use vstd::prelude::*;
use crate::client::{
    clear, law_rect_is_one_line, law_text_is_one_line, rect, rect_line, rect_white, text,
    text_line,
};
use crate::scan::{no_newline, single_line};

verus! {

/// The two colours that the editor draws in.
#[derive(Debug, Clone, Copy, PartialEq, Eq, Structural)]
pub enum Color {
    /// The colour of text and caret.
    Black,
    /// The colour of the background.
    White,
}

/// A drawing command, as a mathematical value.
pub enum Draw {
    /// Wipe the display.
    Clear,
    /// Draw `text` at `(x, y)`.
    Text { x: int, y: int, text: Seq<char> },
    /// Fill the rectangle of the given size at `(x, y)`.
    Rect { x: int, y: int, width: int, height: int, color: Color },
}

/// A drawing command.
#[derive(Debug, PartialEq, Eq)]
pub enum DrawCommand {
    /// Wipe the display.
    Clear,
    /// Draw `text` at `(x, y)`.
    Text { x: u128, y: u128, text: String },
    /// Fill the rectangle of the given size at `(x, y)`.
    Rect { x: u128, y: u128, width: u128, height: u128, color: Color },
}

impl View for DrawCommand {
    type V = Draw;

    open spec fn view(&self) -> Draw {
        match self {
            DrawCommand::Clear => Draw::Clear,
            DrawCommand::Text { x, y, text } => Draw::Text {
                x: *x as int,
                y: *y as int,
                text: text@,
            },
            DrawCommand::Rect { x, y, width, height, color } => Draw::Rect {
                x: *x as int,
                y: *y as int,
                width: *width as int,
                height: *height as int,
                color: *color,
            },
        }
    }
}

/// The commands of `v`, as mathematical values.
pub open spec fn draws(v: Seq<DrawCommand>) -> Seq<Draw> {
    v.map_values(|c: DrawCommand| c@)
}

/// The line that `d` is sent as.
pub open spec fn encoded(d: Draw) -> Seq<char> {
    match d {
        Draw::Clear => "clear\n"@,
        Draw::Text { x, y, text } => text_line(x as nat, y as nat, text),
        Draw::Rect { x, y, width, height, color } => rect_line(
            x as nat,
            y as nat,
            width as nat,
            height as nat,
            match color {
                Color::Black => "#000000"@,
                Color::White => "#ffffff"@,
            },
        ),
    }
}

/// A command is sent as exactly one line, if the text it draws holds no
/// newline.
pub proof fn law_command_is_one_line(d: Draw)
    requires
        d matches Draw::Text { text, .. } ==> no_newline(text),
    ensures
        single_line(encoded(d)),
{
    match d {
        Draw::Clear => {
            reveal_strlit("clear\n");
        },
        Draw::Text { x, y, text } => {
            law_text_is_one_line(x as nat, y as nat, text);
        },
        Draw::Rect { x, y, width, height, color } => {
            reveal_strlit("#000000");
            reveal_strlit("#ffffff");
            let written = match color {
                Color::Black => "#000000"@,
                Color::White => "#ffffff"@,
            };
            law_rect_is_one_line(x as nat, y as nat, width as nat, height as nat, written);
        },
    }
}

impl DrawCommand {
    /// The line that the command is sent as.
    pub fn encode(&self) -> (line: String)
        ensures
            line@ == encoded(self@),
    {
        match self {
            DrawCommand::Clear => clear(),
            DrawCommand::Text { x, y, text: payload } => text(*x, *y, payload.as_str()),
            DrawCommand::Rect { x, y, width, height, color } => match color {
                Color::Black => rect(*x, *y, *width, *height),
                Color::White => rect_white(*x, *y, *width, *height),
            },
        }
    }
}

} // verus!
