use wire_editor::client::{
    parse_coords, parse_isize, step, Event, Key, KeyEvent, MouseEvent, Step,
};

fn split(fields: &[&str]) -> Vec<Vec<char>> {
    fields.iter().map(|f| f.chars().collect()).collect()
}

#[test]
fn single_character_is_char_key() {
    assert_eq!(Key::from_str("x"), Ok(Key::Char('x')));
    assert_eq!(Key::from_str("X"), Ok(Key::Char('X')));
    assert_eq!(Key::from_str("1"), Ok(Key::Char('1')));
    assert_eq!(Key::from_str(" "), Ok(Key::Char(' ')));
    assert_eq!(Key::from_str("é"), Ok(Key::Char('é')));
    assert_eq!(Key::from_str("越"), Ok(Key::Char('越')));
}

#[test]
fn named_keys_are_known() {
    let named = [
        ("Return", Key::Return),
        ("Tab", Key::Tab),
        ("Space", Key::Space),
        ("Comma", Key::Comma),
        ("Up", Key::Up),
        ("Down", Key::Down),
        ("Left", Key::Left),
        ("Right", Key::Right),
        ("BackSpace", Key::BackSpace),
        ("Escape", Key::Escape),
        ("LeftShift", Key::LeftShift),
        ("LeftControl", Key::LeftControl),
        ("LeftAlt", Key::LeftAlt),
        ("LeftCommand", Key::LeftCommand),
        ("RightCommand", Key::RightCommand),
        ("RightAlt", Key::RightAlt),
        ("RightControl", Key::RightControl),
        ("RightShift", Key::RightShift),
        ("CapsLock", Key::CapsLock),
    ];
    for (name, key) in named {
        assert_eq!(Key::from_str(name), Ok(key), "{}", name);
    }
}

#[test]
fn lower_case_aliases_name_characters() {
    assert_eq!(Key::from_str("space"), Ok(Key::Char(' ')));
    assert_eq!(Key::from_str("leftparen"), Ok(Key::Char('(')));
    assert_eq!(Key::from_str("rightparen"), Ok(Key::Char(')')));
    assert_eq!(Key::from_str("period"), Ok(Key::Char('.')));
}

#[test]
fn other_names_are_the_unknown_key() {
    assert_eq!(Key::from_str("Foo"), Ok(Key::Unknown));
    for name in [
        "", "return", "RETURN", "Return ", "xy", "Unknown", "Char", "comma", "LefCommand",
        "Caps_Lock",
    ] {
        assert_eq!(Key::from_str(name), Ok(Key::Unknown), "{:?}", name);
    }
}

#[test]
fn the_end_of_input_ends_the_events() {
    assert_eq!(step(None), Step::End);
}

#[test]
fn a_line_that_stands_for_no_event_is_passed_over() {
    for line in ["", "\n", "garbage\n", "resize,1\n", "resize,a,b\n", "keydown,a,b\n"] {
        assert_eq!(step(Some(line)), Step::Skip, "{:?}", line);
    }
}

#[test]
fn a_line_that_stands_for_an_event_delivers_it() {
    assert_eq!(step(Some("resize,3,4\n")), Step::Deliver(Event::Resize(3, 4)));
    assert_eq!(
        step(Some("keydown,Foo\n")),
        Step::Deliver(Event::Key(KeyEvent::Down(Key::Unknown)))
    );
    assert_eq!(
        step(Some("mousemove,-1,2\n")),
        Step::Deliver(Event::Mouse(MouseEvent::Move(-1, 2)))
    );
}

#[test]
fn key_lines_decode_to_key_events() {
    assert_eq!(Event::from_str("keydown,x"), Ok(Event::Key(KeyEvent::Down(Key::Char('x')))));
    assert_eq!(Event::from_str("keyup,x"), Ok(Event::Key(KeyEvent::Up(Key::Char('x')))));
    assert_eq!(Event::from_str("keydown,Return"), Ok(Event::Key(KeyEvent::Down(Key::Return))));
    assert_eq!(Event::from_str("keyup,LeftShift"), Ok(Event::Key(KeyEvent::Up(Key::LeftShift))));
    assert_eq!(Event::from_str("keydown,space"), Ok(Event::Key(KeyEvent::Down(Key::Char(' ')))));
}

#[test]
fn unknown_key_name_still_decodes() {
    assert_eq!(Event::from_str("keydown,Foo"), Ok(Event::Key(KeyEvent::Down(Key::Unknown))));
    assert_eq!(Event::from_str("keyup,Foo"), Ok(Event::Key(KeyEvent::Up(Key::Unknown))));
    assert_eq!(Event::from_str("keydown,"), Ok(Event::Key(KeyEvent::Down(Key::Unknown))));
}

#[test]
fn lines_come_with_their_newline() {
    assert_eq!(Event::from_str("keydown,x\n"), Ok(Event::Key(KeyEvent::Down(Key::Char('x')))));
    assert_eq!(Event::from_str("resize,640,480\n"), Ok(Event::Resize(640, 480)));
    assert_eq!(Event::from_str("resize,640,480\r\n"), Ok(Event::Resize(640, 480)));
    assert_eq!(Event::from_str(" mouseup , 3 , 4 \n"), Ok(Event::Mouse(MouseEvent::Up(3, 4))));
}

#[test]
fn resize_and_mouse_lines_carry_signed_integers() {
    assert_eq!(Event::from_str("resize,800,600"), Ok(Event::Resize(800, 600)));
    assert_eq!(Event::from_str("resize,-1,+2"), Ok(Event::Resize(-1, 2)));
    assert_eq!(Event::from_str("mousedown,10,20"), Ok(Event::Mouse(MouseEvent::Down(10, 20))));
    assert_eq!(Event::from_str("mouseup,10,-20"), Ok(Event::Mouse(MouseEvent::Up(10, -20))));
    assert_eq!(Event::from_str("mousemove,0,0"), Ok(Event::Mouse(MouseEvent::Move(0, 0))));
}

#[test]
fn malformed_lines_stand_for_no_event() {
    let lines = [
        "",
        "\n",
        "bogus",
        "bogus,1,2",
        "Resize,1,2",
        "resize",
        "resize,1",
        "resize,1,2,3",
        "resize,a,2",
        "resize,1,b",
        "resize,1.5,2",
        "resize,,",
        "resize,1 2,3",
        "mousedown,1",
        "mouseup,x,y",
        "mousemove,1,2,3",
        "keydown",
        "keyup",
        "keydown,a,b",
        "key down,a",
        "resize,99999999999999999999999999,1",
    ];
    for line in lines {
        assert_eq!(Event::from_str(line), Err(()), "{:?}", line);
    }
}

#[test]
fn numbers_are_taken_from_their_field() {
    let fields = split(&["resize", " 12 ", "-7", "x"]);
    assert_eq!(parse_isize(&fields, 1), Some(12));
    assert_eq!(parse_isize(&fields, 2), Some(-7));
    assert_eq!(parse_isize(&fields, 3), None);
    assert_eq!(parse_isize(&fields, 0), None);
    assert_eq!(parse_isize(&fields, 4), None);
    assert_eq!(parse_isize(&fields, usize::MAX), None);
}

#[test]
fn coordinates_are_two_fields_in_a_row() {
    let fields = split(&["resize", "12", "-7", "x"]);
    assert_eq!(parse_coords(&fields, 1), Some((12, -7)));
    assert_eq!(parse_coords(&fields, 0), None);
    assert_eq!(parse_coords(&fields, 2), None);
    assert_eq!(parse_coords(&fields, 3), None);
    assert_eq!(parse_coords(&fields, 4), None);
    assert_eq!(parse_coords(&fields, usize::MAX), None);
    assert_eq!(parse_coords(&split(&["1"]), 0), None);
}
