use wire_editor::client::{clear, rect, rect_white, text};
use wire_editor::draw::{Color, DrawCommand};

/// What the receiving side does with a line: it undoes the doubling of
/// commas in the payload of a text command.
fn payload_received(line: &str) -> String {
    let line = line.strip_suffix('\n').expect("no newline at the end");
    let mut parts = line.splitn(5, ',');
    assert_eq!(parts.next(), Some("text"));
    parts.next().expect("no x");
    parts.next().expect("no y");
    parts.next().expect("no colour");
    parts.next().expect("no payload").replace(",,", ",")
}

#[test]
fn text_payload_round_trips() {
    let line = text(0, 0, "a,b");
    assert_eq!(line, "text,0,0,#000000,a,,b\n");
    assert_eq!(payload_received(&line), "a,b");
}

#[test]
fn payloads_with_commas_anywhere_round_trip() {
    for payload in ["", ",", ",,", "a", "a,", ",a", "a,,b", "fn f(a, b, c)", "x,y,,z,,,"] {
        assert_eq!(payload_received(&text(3, 4, payload)), payload, "{:?}", payload);
    }
}

#[test]
fn text_line_is_exact() {
    assert_eq!(text(0, 14, "hello"), "text,0,14,#000000,hello\n");
    assert_eq!(text(120, 0, ""), "text,120,0,#000000,\n");
    assert_eq!(text(1, 2, "a, b"), "text,1,2,#000000,a,, b\n");
    assert_eq!(text(u128::MAX, 0, "x"), format!("text,{},0,#000000,x\n", u128::MAX));
}

#[test]
fn rect_lines_are_exact() {
    assert_eq!(rect(8, 28, 1, 14), "rect,8,28,1,14,#000000\n");
    assert_eq!(rect_white(0, 42, 640, 14), "rect,0,42,640,14,#ffffff\n");
    assert_eq!(rect(0, 0, 0, 0), "rect,0,0,0,0,#000000\n");
}

#[test]
fn clear_line_is_exact() {
    assert_eq!(clear(), "clear\n");
}

#[test]
fn commands_encode_as_their_lines() {
    assert_eq!(DrawCommand::Clear.encode(), "clear\n");
    let caret = DrawCommand::Rect { x: 16, y: 14, width: 1, height: 14, color: Color::Black };
    assert_eq!(caret.encode(), "rect,16,14,1,14,#000000\n");
    let wipe = DrawCommand::Rect { x: 0, y: 0, width: 100, height: 14, color: Color::White };
    assert_eq!(wipe.encode(), "rect,0,0,100,14,#ffffff\n");
    let row = DrawCommand::Text { x: 0, y: 28, text: String::from("let a = (1, 2);") };
    assert_eq!(row.encode(), "text,0,28,#000000,let a = (1,, 2);\n");
}
