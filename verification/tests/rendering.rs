use wire_editor::draw::{Color, DrawCommand};
use wire_editor::editor::Editor;
use wire_editor::keys::Action;

fn text(x: u128, y: u128, s: &str) -> DrawCommand {
    DrawCommand::Text { x, y, text: String::from(s) }
}

fn caret(x: u128, y: u128) -> DrawCommand {
    DrawCommand::Rect { x, y, width: 1, height: 14, color: Color::Black }
}

#[test]
fn a_small_text_is_drawn_whole() {
    let mut editor = Editor::new();
    editor.load("ab\ncd");
    editor.resize(200, 28);
    let expected = vec![
        DrawCommand::Clear,
        text(0, 0, "ab"),
        text(0, 14, "cd"),
        caret(0, 0),
        text(46, 0, "L 1/2 : 0 0"),
        text(46, 14, "I0"),
    ];
    assert_eq!(editor.render(), expected);
}

#[test]
fn the_caret_follows_the_cursor() {
    let mut editor = Editor::new();
    editor.load("ab\ncd");
    editor.resize(200, 280);
    editor.action_edit(Action::CursorDown);
    editor.action_edit(Action::CursorRight);
    editor.action_edit(Action::CursorRight);
    let expected = vec![
        DrawCommand::Clear,
        text(0, 0, "ab"),
        text(0, 14, "cd"),
        caret(16, 14),
        text(46, 0, "L 2/2 : 2 1"),
        text(46, 14, "I5"),
    ];
    assert_eq!(editor.render(), expected);
}

#[test]
fn only_the_rows_that_fit_are_drawn() {
    let mut editor = Editor::new();
    editor.load("l0\nl1\nl2\nl3");
    editor.resize(300, 41);
    let commands = editor.render();
    assert_eq!(commands[..3], [DrawCommand::Clear, text(0, 0, "l0"), text(0, 14, "l1")]);
    assert_eq!(commands[3], caret(0, 0));
    assert_eq!(commands.len(), 6);
}

#[test]
fn nothing_of_the_text_is_drawn_without_a_viewport() {
    let mut editor = Editor::new();
    editor.load("ab\ncd");
    let expected =
        vec![DrawCommand::Clear, caret(0, 0), text(0, 0, "L 1/2 : 0 0"), text(0, 14, "I0")];
    assert_eq!(editor.render(), expected);
}

#[test]
fn a_scrolled_viewport_is_drawn_from_the_newline_before_its_top_line() {
    let mut editor = Editor::new();
    editor.load("l0\nl1\nl2\nl3\nl4");
    editor.resize(500, 28);
    editor.action_edit(Action::CursorDown);
    editor.action_edit(Action::CursorDown);
    assert_eq!((editor.line(), editor.top(), editor.top_ins()), (2, 1, 3));
    let expected = vec![
        DrawCommand::Clear,
        text(0, 0, ""),
        text(0, 14, "l1"),
        caret(0, 28),
        text(346, 0, "L 3/5 : 0 1"),
        text(346, 14, "I6"),
    ];
    assert_eq!(editor.render(), expected);
}

#[test]
fn the_status_is_right_aligned_and_never_left_of_the_display() {
    let mut editor = Editor::new();
    editor.resize(154, 14);
    assert_eq!(editor.render_debug(), vec![text(0, 0, "L 1/1 : 0 0"), text(0, 14, "I0")]);
    editor.resize(155, 14);
    assert_eq!(editor.render_debug(), vec![text(1, 0, "L 1/1 : 0 0"), text(1, 14, "I0")]);
    editor.resize(10, 14);
    assert_eq!(editor.render_debug(), vec![text(0, 0, "L 1/1 : 0 0"), text(0, 14, "I0")]);
    for c in "0123456789".chars() {
        editor.action_edit(Action::Insert(c));
    }
    editor.resize(1000, 140);
    assert_eq!(editor.render_debug(), vec![text(832, 0, "L 1/1 : 10 0"), text(832, 14, "I10")]);
}

#[test]
fn save_mode_draws_its_prompt_on_the_last_row() {
    let mut editor = Editor::new();
    editor.load("ab");
    editor.resize(320, 42);
    assert_eq!(editor.render_save(), Vec::<DrawCommand>::new());
    editor.apply(Action::Save);
    let wipe = DrawCommand::Rect { x: 0, y: 28, width: 320, height: 14, color: Color::White };
    assert_eq!(editor.render_save(), vec![wipe, text(0, 28, "Save to file: ")]);
    editor.apply(Action::Insert('o'));
    editor.apply(Action::Insert(','));
    let wipe = DrawCommand::Rect { x: 0, y: 28, width: 320, height: 14, color: Color::White };
    assert_eq!(editor.render_save(), vec![wipe, text(0, 28, "Save to file: o,")]);
    let expected = vec![
        DrawCommand::Clear,
        text(0, 0, "ab"),
        caret(0, 0),
        text(166, 0, "L 1/1 : 0 0"),
        text(166, 14, "I0"),
        DrawCommand::Rect { x: 0, y: 28, width: 320, height: 14, color: Color::White },
        text(0, 28, "Save to file: o,"),
    ];
    assert_eq!(editor.render(), expected);
    let lines: Vec<String> = editor.render().iter().map(|c| c.encode()).collect();
    assert_eq!(
        lines,
        vec![
            "clear\n",
            "text,0,0,#000000,ab\n",
            "rect,0,0,1,14,#000000\n",
            "text,166,0,#000000,L 1/1 : 0 0\n",
            "text,166,14,#000000,I0\n",
            "rect,0,28,320,14,#ffffff\n",
            "text,0,28,#000000,Save to file: o,,\n",
        ]
    );
}

#[test]
fn the_prompt_is_drawn_on_the_first_row_of_a_flat_viewport() {
    let mut editor = Editor::new();
    editor.apply(Action::Save);
    editor.apply(Action::Insert('x'));
    let wipe = DrawCommand::Rect { x: 0, y: 0, width: 0, height: 14, color: Color::White };
    assert_eq!(editor.render_save(), vec![wipe, text(0, 0, "Save to file: x")]);
}

#[test]
fn every_command_goes_out_as_one_line() {
    let mut editor = Editor::new();
    editor.load("a,b\n\nlast, line\n");
    editor.resize(90, 100);
    editor.action_edit(Action::CursorDown);
    editor.apply(Action::Save);
    for c in "dir/file,v2.txt".chars() {
        editor.apply(Action::Insert(c));
    }
    let commands = editor.render();
    assert_eq!(commands.len(), 9);
    for command in commands.iter() {
        let line = command.encode();
        assert!(line.ends_with('\n'), "{:?}", line);
        assert_eq!(line.matches('\n').count(), 1, "{:?}", line);
    }
    assert_eq!(commands[1].encode(), "text,0,0,#000000,a,,b\n");
    assert_eq!(commands[2].encode(), "text,0,14,#000000,\n");
    assert_eq!(commands[3].encode(), "text,0,28,#000000,last,, line\n");
    assert_eq!(commands[8].encode(), "text,0,84,#000000,Save to file: dir/file,,v2.txt\n");
}
