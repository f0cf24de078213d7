//! The line protocol spoken with the display and input server: the events it
//! sends, how a line of input is decoded into one, and how drawing commands
//! are written as lines.

use vstd::prelude::*;
use vstd::string::StringExecFns;
use crate::fields::{
    decimal, fields, is_digit, lemma_decimal_digits, parse_isize_spec, push_decimal, read_isize,
    same_chars, split_fields, trim, trimmed, views, COMMA,
};
use crate::scan::{no_newline, single_line, NEWLINE};
use crate::strings::{chars_of, push_char};

verus! {

/// An input event, as decoded from one line.
#[derive(Debug, Clone, Copy, PartialEq, Eq, Structural)]
pub enum Event {
    /// The viewport now has this width and height.
    Resize(isize, isize),
    Mouse(MouseEvent),
    Key(KeyEvent),
}

/// A pointer event with its position.
#[derive(Debug, Clone, Copy, PartialEq, Eq, Structural)]
pub enum MouseEvent {
    Move(isize, isize),
    Down(isize, isize),
    Up(isize, isize),
}

/// A key going up or down.
#[derive(Debug, Clone, Copy, PartialEq, Eq, Structural)]
pub enum KeyEvent {
    Up(Key),
    Down(Key),
}

/// A key: a printable character, one of the named keys, or a name that is
/// not known.
#[derive(Debug, Clone, Copy, PartialEq, Eq, Structural)]
pub enum Key {
    Char(char),
    Return,
    Tab,
    Space,
    Comma,
    Up,
    Down,
    Left,
    Right,
    BackSpace,
    Escape,
    LeftShift,
    LeftControl,
    LeftAlt,
    LeftCommand,
    RightCommand,
    RightAlt,
    RightControl,
    RightShift,
    CapsLock,
    Unknown,
}

/// The key that `name` names, if it names one: any single character names
/// itself, and the named keys and the older lower-case names of four
/// characters are listed here. No other name is known.
pub open spec fn key_named(name: Seq<char>) -> Option<Key> {
    if name.len() == 1 {
        Some(Key::Char(name[0]))
    } else if name == "Return"@ {
        Some(Key::Return)
    } else if name == "Tab"@ {
        Some(Key::Tab)
    } else if name == "Space"@ {
        Some(Key::Space)
    } else if name == "Comma"@ {
        Some(Key::Comma)
    } else if name == "Up"@ {
        Some(Key::Up)
    } else if name == "Down"@ {
        Some(Key::Down)
    } else if name == "Left"@ {
        Some(Key::Left)
    } else if name == "Right"@ {
        Some(Key::Right)
    } else if name == "BackSpace"@ {
        Some(Key::BackSpace)
    } else if name == "Escape"@ {
        Some(Key::Escape)
    } else if name == "LeftShift"@ {
        Some(Key::LeftShift)
    } else if name == "LeftControl"@ {
        Some(Key::LeftControl)
    } else if name == "LeftAlt"@ {
        Some(Key::LeftAlt)
    } else if name == "LeftCommand"@ {
        Some(Key::LeftCommand)
    } else if name == "RightCommand"@ {
        Some(Key::RightCommand)
    } else if name == "RightAlt"@ {
        Some(Key::RightAlt)
    } else if name == "RightControl"@ {
        Some(Key::RightControl)
    } else if name == "RightShift"@ {
        Some(Key::RightShift)
    } else if name == "CapsLock"@ {
        Some(Key::CapsLock)
    } else if name == "space"@ {
        Some(Key::Char(' '))
    } else if name == "leftparen"@ {
        Some(Key::Char('('))
    } else if name == "rightparen"@ {
        Some(Key::Char(')'))
    } else if name == "period"@ {
        Some(Key::Char('.'))
    } else {
        None
    }
}

/// The number in field `at` of `f`, read after trimming, if there is such a
/// field and it writes an `isize`.
pub open spec fn number_at(f: Seq<Seq<char>>, at: int) -> Option<isize> {
    if 0 <= at < f.len() {
        parse_isize_spec(trim(f[at]))
    } else {
        None
    }
}

/// The two numbers in fields `at` and `at + 1` of `f`, if both are there.
pub open spec fn coords_at(f: Seq<Seq<char>>, at: int) -> Option<(isize, isize)> {
    match (number_at(f, at), number_at(f, at + 1)) {
        (Some(x), Some(y)) => Some((x, y)),
        _ => None,
    }
}

/// The key that `name` stands for: the key it names, and `Key::Unknown`
/// where it names none.
pub open spec fn key_for(name: Seq<char>) -> Key {
    match key_named(name) {
        Some(key) => key,
        None => Key::Unknown,
    }
}

/// The key that field 1 of `f` stands for.
pub open spec fn key_at(f: Seq<Seq<char>>) -> Key {
    key_for(f[1])
}

/// The event that `line` stands for. A line is split at its commas into
/// fields, each of which is trimmed. The first field is the tag; `resize` and
/// the three mouse tags take two integers, the two key tags a key name. A line
/// with another tag, with one field too few or too many, or with a number
/// that is none stands for no event.
pub open spec fn decode(line: Seq<char>) -> Option<Event> {
    let f = fields(line);
    let tag = f[0];
    if tag == "resize"@ {
        match coords_at(f, 1) {
            Some((w, h)) if f.len() == 3 => Some(Event::Resize(w, h)),
            _ => None,
        }
    } else if tag == "mousedown"@ {
        match coords_at(f, 1) {
            Some((x, y)) if f.len() == 3 => Some(Event::Mouse(MouseEvent::Down(x, y))),
            _ => None,
        }
    } else if tag == "mouseup"@ {
        match coords_at(f, 1) {
            Some((x, y)) if f.len() == 3 => Some(Event::Mouse(MouseEvent::Up(x, y))),
            _ => None,
        }
    } else if tag == "mousemove"@ {
        match coords_at(f, 1) {
            Some((x, y)) if f.len() == 3 => Some(Event::Mouse(MouseEvent::Move(x, y))),
            _ => None,
        }
    } else if tag == "keyup"@ {
        if f.len() == 2 {
            Some(Event::Key(KeyEvent::Up(key_at(f))))
        } else {
            None
        }
    } else if tag == "keydown"@ {
        if f.len() == 2 {
            Some(Event::Key(KeyEvent::Down(key_at(f))))
        } else {
            None
        }
    } else {
        None
    }
}

/// A key line with a name that is not known is still a key event: whatever
/// the second of its two fields holds, the line decodes, to the key that the
/// field stands for.
pub proof fn law_key_lines_always_decode(line: Seq<char>)
    requires
        fields(line).len() == 2,
        fields(line)[0] == "keyup"@ || fields(line)[0] == "keydown"@,
    ensures
        decode(line) == Some(
            Event::Key(
                if fields(line)[0] == "keyup"@ {
                    KeyEvent::Up(key_for(fields(line)[1]))
                } else {
                    KeyEvent::Down(key_for(fields(line)[1]))
                },
            ),
        ),
        key_named(fields(line)[1]) is None ==> key_for(fields(line)[1]) == Key::Unknown,
{
    reveal_strlit("keyup");
    reveal_strlit("keydown");
    reveal_strlit("resize");
    reveal_strlit("mousedown");
    reveal_strlit("mouseup");
    reveal_strlit("mousemove");
    let tag = fields(line)[0];
    assert(tag[0] == 'k');
}

/// Whether `field` reads `name`.
fn is_name(field: &Vec<char>, name: &str) -> (same: bool)
    ensures
        same == (field@ == name@),
{
    let chars = chars_of(name);
    same_chars(field, &chars)
}

/// The key that `name` stands for.
fn key_of(name: &Vec<char>) -> (key: Key)
    ensures
        key == key_for(name@),
{
    if name.len() == 1 {
        Key::Char(name[0])
    } else if is_name(name, "Return") {
        Key::Return
    } else if is_name(name, "Tab") {
        Key::Tab
    } else if is_name(name, "Space") {
        Key::Space
    } else if is_name(name, "Comma") {
        Key::Comma
    } else if is_name(name, "Up") {
        Key::Up
    } else if is_name(name, "Down") {
        Key::Down
    } else if is_name(name, "Left") {
        Key::Left
    } else if is_name(name, "Right") {
        Key::Right
    } else if is_name(name, "BackSpace") {
        Key::BackSpace
    } else if is_name(name, "Escape") {
        Key::Escape
    } else if is_name(name, "LeftShift") {
        Key::LeftShift
    } else if is_name(name, "LeftControl") {
        Key::LeftControl
    } else if is_name(name, "LeftAlt") {
        Key::LeftAlt
    } else if is_name(name, "LeftCommand") {
        Key::LeftCommand
    } else if is_name(name, "RightCommand") {
        Key::RightCommand
    } else if is_name(name, "RightAlt") {
        Key::RightAlt
    } else if is_name(name, "RightControl") {
        Key::RightControl
    } else if is_name(name, "RightShift") {
        Key::RightShift
    } else if is_name(name, "CapsLock") {
        Key::CapsLock
    } else if is_name(name, "space") {
        Key::Char(' ')
    } else if is_name(name, "leftparen") {
        Key::Char('(')
    } else if is_name(name, "rightparen") {
        Key::Char(')')
    } else if is_name(name, "period") {
        Key::Char('.')
    } else {
        Key::Unknown
    }
}

impl Key {
    /// The key that `s` stands for. Every name stands for a key: one that is
    /// not known stands for `Key::Unknown`, so this never fails.
    pub fn from_str(s: &str) -> (r: Result<Key, ()>)
        ensures
            r == Ok::<Key, ()>(key_for(s@)),
    {
        let name = chars_of(s);
        Ok(key_of(&name))
    }
}

/// The number in field `at`, read after trimming; `None` where the field is
/// missing or writes no `isize`.
pub fn parse_isize(split: &Vec<Vec<char>>, at: usize) -> (r: Option<isize>)
    ensures
        r == number_at(views(split@), at as int),
{
    if at < split.len() {
        let field = trimmed(&split[at]);
        read_isize(&field)
    } else {
        None
    }
}

/// The two numbers in fields `at` and `at + 1`; `None` unless both are there.
pub fn parse_coords(split: &Vec<Vec<char>>, at: usize) -> (r: Option<(isize, isize)>)
    ensures
        r == coords_at(views(split@), at as int),
{
    let n = split.len();
    if at < n && at + 1 < n {
        match (parse_isize(split, at), parse_isize(split, at + 1)) {
            (Some(x), Some(y)) => Some((x, y)),
            _ => None,
        }
    } else {
        None
    }
}

impl Event {
    /// Decodes one line of input; an error where the line stands for no
    /// event.
    pub fn from_str(s: &str) -> (r: Result<Event, ()>)
        ensures
            r == match decode(s@) {
                Some(event) => Ok::<Event, ()>(event),
                None => Err::<Event, ()>(()),
            },
    {
        let line = chars_of(s);
        let split = split_fields(&line);
        proof {
            crate::fields::lemma_split_nonempty(line@);
        }
        let tag = &split[0];
        let pointer = is_name(tag, "mousedown") || is_name(tag, "mouseup") || is_name(
            tag,
            "mousemove",
        );
        if is_name(tag, "resize") || pointer {
            if split.len() != 3 {
                return Err(());
            }
            match parse_coords(&split, 1) {
                Some((x, y)) => {
                    if is_name(tag, "resize") {
                        Ok(Event::Resize(x, y))
                    } else if is_name(tag, "mousedown") {
                        Ok(Event::Mouse(MouseEvent::Down(x, y)))
                    } else if is_name(tag, "mouseup") {
                        Ok(Event::Mouse(MouseEvent::Up(x, y)))
                    } else {
                        Ok(Event::Mouse(MouseEvent::Move(x, y)))
                    }
                },
                None => Err(()),
            }
        } else if is_name(tag, "keyup") || is_name(tag, "keydown") {
            if split.len() != 2 {
                return Err(());
            }
            let key = key_of(&split[1]);
            if is_name(tag, "keyup") {
                Ok(Event::Key(KeyEvent::Up(key)))
            } else {
                Ok(Event::Key(KeyEvent::Down(key)))
            }
        } else {
            Err(())
        }
    }
}

/// What the run loop does with one attempt to read a line of input.
#[derive(Debug, Clone, Copy, PartialEq, Eq, Structural)]
pub enum Step {
    /// The connection has ended, and with it the events.
    End,
    /// The line stands for no event and is passed over.
    Skip,
    /// The line stands for this event.
    Deliver(Event),
}

/// What one read of the connection stands for, before anything is decoded.
pub open spec fn step_for(read: Option<Seq<char>>) -> Step {
    match read {
        None => Step::End,
        Some(line) => match decode(line) {
            Some(event) => Step::Deliver(event),
            None => Step::Skip,
        },
    }
}

/// Decides what to do with one read of the connection: `None` is its end and
/// ends the events; a line that stands for an event delivers it; any other
/// line is passed over, and the next is read.
pub fn step(read: Option<&str>) -> (step: Step)
    ensures
        step == step_for(
            match read {
                Some(line) => Some(line@),
                None => None,
            },
        ),
{
    match read {
        None => Step::End,
        Some(line) => match Event::from_str(line) {
            Ok(event) => Step::Deliver(event),
            Err(_) => Step::Skip,
        },
    }
}

/// `s` with every comma doubled, so that the fields of a line can still be
/// told from the commas of its payload.
pub open spec fn escape(s: Seq<char>) -> Seq<char>
    decreases s.len(),
{
    if s.len() == 0 {
        Seq::empty()
    } else if s.last() == COMMA {
        escape(s.drop_last()).push(COMMA).push(COMMA)
    } else {
        escape(s.drop_last()).push(s.last())
    }
}

/// What the receiver makes of an escaped payload: of two commas in a row it
/// keeps one.
pub open spec fn unescape(s: Seq<char>) -> Seq<char>
    decreases s.len(),
{
    if s.len() == 0 {
        Seq::empty()
    } else if s.len() >= 2 && s[0] == COMMA && s[1] == COMMA {
        seq![COMMA] + unescape(s.skip(2))
    } else {
        seq![s[0]] + unescape(s.skip(1))
    }
}

/// The line that draws the text `s` at `(x, y)`, in black.
pub open spec fn text_line(x: nat, y: nat, s: Seq<char>) -> Seq<char> {
    "text,"@ + decimal(x) + ","@ + decimal(y) + ",#000000,"@ + escape(s) + "\n"@
}

/// The line that fills the rectangle of the given size at `(x, y)` with the
/// colour `color`.
pub open spec fn rect_line(x: nat, y: nat, width: nat, height: nat, color: Seq<char>) -> Seq<
    char,
> {
    "rect,"@ + decimal(x) + ","@ + decimal(y) + ","@ + decimal(width) + ","@ + decimal(height)
        + ","@ + color + "\n"@
}

/// Escaping distributes over concatenation.
pub proof fn lemma_escape_concat(a: Seq<char>, b: Seq<char>)
    ensures
        escape(a + b) == escape(a) + escape(b),
    decreases b.len(),
{
    if b.len() > 0 {
        assert((a + b).drop_last() =~= a + b.drop_last());
        lemma_escape_concat(a, b.drop_last());
    }
}

/// The receiver recovers every payload: undoing the doubling of commas gives
/// back the text that was escaped.
pub proof fn law_unescape_escape(s: Seq<char>)
    ensures
        unescape(escape(s)) == s,
    decreases s.len(),
{
    if s.len() > 0 {
        let head = seq![s[0]];
        let rest = s.skip(1);
        assert(s =~= head + rest);
        lemma_escape_concat(head, rest);
        law_unescape_escape(rest);
        assert(head.drop_last() =~= Seq::<char>::empty());
        assert(escape(Seq::<char>::empty()) =~= Seq::<char>::empty());
        let e = escape(s);
        if s[0] == COMMA {
            assert(e.skip(2) =~= escape(rest));
        } else {
            assert(e.skip(1) =~= escape(rest));
        }
    }
}

/// Escaping brings no newline into a text that has none.
pub proof fn lemma_escape_no_newline(s: Seq<char>)
    requires
        no_newline(s),
    ensures
        no_newline(escape(s)),
    decreases s.len(),
{
    if s.len() > 0 {
        assert(s[s.len() - 1] != NEWLINE);
        assert forall|k: int| 0 <= k < s.drop_last().len() implies s.drop_last()[k] != NEWLINE by {
            assert(s.drop_last()[k] == s[k]);
        }
        lemma_escape_no_newline(s.drop_last());
    }
}

/// A number is written without a newline.
pub proof fn lemma_decimal_no_newline(n: nat)
    ensures
        no_newline(decimal(n)),
{
    lemma_decimal_digits(n);
    assert forall|k: int| 0 <= k < decimal(n).len() implies decimal(n)[k] != NEWLINE by {
        assert(is_digit(decimal(n)[k]));
    }
}

/// A text command is exactly one line, whatever its place, if its payload
/// holds no newline.
pub proof fn law_text_is_one_line(x: nat, y: nat, s: Seq<char>)
    requires
        no_newline(s),
    ensures
        single_line(text_line(x, y, s)),
{
    reveal_strlit("text,");
    reveal_strlit(",");
    reveal_strlit(",#000000,");
    reveal_strlit("\n");
    lemma_decimal_no_newline(x);
    lemma_decimal_no_newline(y);
    lemma_escape_no_newline(s);
    let head = "text,"@ + decimal(x) + ","@ + decimal(y) + ",#000000,"@ + escape(s);
    assert(no_newline(head));
    assert(text_line(x, y, s) =~= head.push(NEWLINE));
}

/// A rectangle command is exactly one line, whatever its place and size, if
/// its colour is written without a newline.
pub proof fn law_rect_is_one_line(x: nat, y: nat, width: nat, height: nat, color: Seq<char>)
    requires
        no_newline(color),
    ensures
        single_line(rect_line(x, y, width, height, color)),
{
    reveal_strlit("rect,");
    reveal_strlit(",");
    reveal_strlit("\n");
    lemma_decimal_no_newline(x);
    lemma_decimal_no_newline(y);
    lemma_decimal_no_newline(width);
    lemma_decimal_no_newline(height);
    let head = "rect,"@ + decimal(x) + ","@ + decimal(y) + ","@ + decimal(width) + ","@ + decimal(
        height,
    ) + ","@ + color;
    assert(no_newline(head));
    assert(rect_line(x, y, width, height, color) =~= head.push(NEWLINE));
}

/// Appends `s`, with its commas doubled, to `out`.
fn push_escaped(out: &mut String, s: &str)
    ensures
        final(out)@ == old(out)@ + escape(s@),
{
    let chars = chars_of(s);
    let mut i: usize = 0;
    while i < chars.len()
        invariant
            i <= chars@.len(),
            chars@ == s@,
            out@ == old(out)@ + escape(chars@.take(i as int)),
        decreases chars@.len() - i,
    {
        let c = chars[i];
        assert(chars@.take(i as int + 1).drop_last() =~= chars@.take(i as int));
        push_char(out, c);
        if c == COMMA {
            push_char(out, c);
        }
        i += 1;
    }
    assert(chars@.take(i as int) =~= chars@);
}

/// The line that draws the text `s` at `(x, y)`, in black.
pub fn text(x: u128, y: u128, s: &str) -> (line: String)
    ensures
        line@ == text_line(x as nat, y as nat, s@),
{
    let mut line = String::from_str("text,");
    push_decimal(&mut line, x);
    line.append(",");
    push_decimal(&mut line, y);
    line.append(",#000000,");
    push_escaped(&mut line, s);
    line.append("\n");
    line
}

/// The line that fills a rectangle with the colour written as `color`.
fn rect_in(x: u128, y: u128, width: u128, height: u128, color: &str) -> (line: String)
    ensures
        line@ == rect_line(x as nat, y as nat, width as nat, height as nat, color@),
{
    let mut line = String::from_str("rect,");
    push_decimal(&mut line, x);
    line.append(",");
    push_decimal(&mut line, y);
    line.append(",");
    push_decimal(&mut line, width);
    line.append(",");
    push_decimal(&mut line, height);
    line.append(",");
    line.append(color);
    line.append("\n");
    line
}

/// The line that fills the rectangle of the given size at `(x, y)` with
/// black.
pub fn rect(x: u128, y: u128, width: u128, height: u128) -> (line: String)
    ensures
        line@ == rect_line(x as nat, y as nat, width as nat, height as nat, "#000000"@),
{
    rect_in(x, y, width, height, "#000000")
}

/// The line that fills the rectangle of the given size at `(x, y)` with
/// white.
pub fn rect_white(x: u128, y: u128, width: u128, height: u128) -> (line: String)
    ensures
        line@ == rect_line(x as nat, y as nat, width as nat, height as nat, "#ffffff"@),
{
    rect_in(x, y, width, height, "#ffffff")
}

/// The line that wipes the display.
pub fn clear() -> (line: String)
    ensures
        line@ == "clear\n"@,
{
    String::from_str("clear\n")
}

} // verus!
