use wire_editor::client::{Key, KeyEvent};
use wire_editor::keys::{Action, KeyMapping};

#[test]
fn new_mapping_holds_no_modifier() {
    let mapping = KeyMapping::new();
    assert!(!mapping.shift);
    assert!(!mapping.ctrl);
}

#[test]
fn plain_keys_map_to_their_actions() {
    let mut mapping = KeyMapping::new();
    assert_eq!(mapping.get_action(KeyEvent::Down(Key::Char('a'))), Action::Insert('a'));
    assert_eq!(mapping.get_action(KeyEvent::Down(Key::Char('s'))), Action::Insert('s'));
    assert_eq!(mapping.get_action(KeyEvent::Down(Key::Char('q'))), Action::Insert('q'));
    assert_eq!(mapping.get_action(KeyEvent::Down(Key::BackSpace)), Action::Delete);
    assert_eq!(mapping.get_action(KeyEvent::Down(Key::Up)), Action::CursorUp);
    assert_eq!(mapping.get_action(KeyEvent::Down(Key::Down)), Action::CursorDown);
    assert_eq!(mapping.get_action(KeyEvent::Down(Key::Left)), Action::CursorLeft);
    assert_eq!(mapping.get_action(KeyEvent::Down(Key::Right)), Action::CursorRight);
    assert_eq!(mapping.get_action(KeyEvent::Down(Key::Return)), Action::Insert('\n'));
}

#[test]
fn other_keys_do_nothing() {
    let mut mapping = KeyMapping::new();
    for key in [
        Key::Tab,
        Key::Space,
        Key::Comma,
        Key::Escape,
        Key::LeftAlt,
        Key::LeftCommand,
        Key::RightCommand,
        Key::RightAlt,
        Key::CapsLock,
        Key::Unknown,
        Key::LeftShift,
        Key::RightShift,
        Key::LeftControl,
        Key::RightControl,
    ] {
        assert_eq!(mapping.get_action(KeyEvent::Down(key)), Action::Noop);
        assert_eq!(mapping.get_action(KeyEvent::Up(key)), Action::Noop);
    }
}

#[test]
fn key_up_never_acts() {
    let mut mapping = KeyMapping::new();
    for key in [Key::Char('a'), Key::BackSpace, Key::Up, Key::Down, Key::Left, Key::Right, Key::Return]
    {
        assert_eq!(mapping.get_action(KeyEvent::Up(key)), Action::Noop);
    }
    assert_eq!(mapping.get_action(KeyEvent::Down(Key::LeftControl)), Action::Noop);
    assert_eq!(mapping.get_action(KeyEvent::Up(Key::Char('s'))), Action::Noop);
    assert_eq!(mapping.get_action(KeyEvent::Up(Key::Char('q'))), Action::Noop);
}

#[test]
fn control_turns_s_and_q_into_save_and_quit() {
    let mut mapping = KeyMapping::new();
    assert_eq!(mapping.get_action(KeyEvent::Down(Key::LeftControl)), Action::Noop);
    assert!(mapping.ctrl);
    assert_eq!(mapping.get_action(KeyEvent::Down(Key::Char('s'))), Action::Save);
    assert_eq!(mapping.get_action(KeyEvent::Down(Key::Char('q'))), Action::Quit);
    assert_eq!(mapping.get_action(KeyEvent::Down(Key::Char('x'))), Action::Insert('x'));
    assert_eq!(mapping.get_action(KeyEvent::Up(Key::LeftControl)), Action::Noop);
    assert!(!mapping.ctrl);
    assert_eq!(mapping.get_action(KeyEvent::Down(Key::Char('s'))), Action::Insert('s'));
}

#[test]
fn either_control_and_either_shift_is_tracked() {
    let mut mapping = KeyMapping::new();
    mapping.get_action(KeyEvent::Down(Key::RightControl));
    assert!(mapping.ctrl);
    assert_eq!(mapping.get_action(KeyEvent::Down(Key::Char('q'))), Action::Quit);
    mapping.get_action(KeyEvent::Up(Key::LeftControl));
    assert!(!mapping.ctrl);
    mapping.get_action(KeyEvent::Down(Key::LeftShift));
    assert!(mapping.shift);
    assert!(!mapping.ctrl);
    mapping.get_action(KeyEvent::Up(Key::RightShift));
    assert!(!mapping.shift);
    mapping.get_action(KeyEvent::Down(Key::RightShift));
    assert!(mapping.shift);
    assert_eq!(mapping.get_action(KeyEvent::Down(Key::Char('s'))), Action::Insert('s'));
}
