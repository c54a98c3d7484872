use gpui_ui_kit::number_edit::{edit_key_command, step_key_direction, EditKeyCommand, NumberEditState};

fn text(s: &NumberEditState) -> String {
    s.text_string()
}

#[test]
fn new_selects_everything() {
    let s = NumberEditState::new("12.5");
    assert!(s.editing);
    assert!(s.text_selected);
    assert_eq!(s.cursor, 4);
    assert_eq!(text(&s), "12.5");
    assert_eq!(s.get_selected_text().as_deref(), Some("12.5"));
    let d = NumberEditState::default();
    assert!(!d.editing && d.cursor == 0 && d.text.is_empty());
}

#[test]
fn typing_replaces_selection_and_filters() {
    let mut s = NumberEditState::new("12.5");
    s.insert_char('7');
    assert_eq!(text(&s), "7");
    assert_eq!(s.cursor, 1);
    assert!(!s.text_selected);
    s.insert_char('x');
    assert_eq!(text(&s), "7");
    s.insert_char('-');
    s.insert_char('+');
    s.insert_char('.');
    assert_eq!(text(&s), "7-+.");
    assert_eq!(s.cursor, 4);
}

#[test]
fn backspace_undoes_typing() {
    let mut s = NumberEditState::new("123");
    s.move_left();
    let before = (text(&s), s.cursor);
    s.insert_char('9');
    assert_eq!(text(&s), "1293");
    s.do_backspace();
    assert_eq!((text(&s), s.cursor), before);
}

#[test]
fn backspace_and_delete() {
    let mut s = NumberEditState::new("123");
    s.do_backspace();
    assert_eq!(text(&s), "");
    assert_eq!(s.cursor, 0);
    let mut s = NumberEditState::new("123");
    s.move_to_start();
    s.do_backspace();
    assert_eq!(text(&s), "123");
    s.do_delete();
    assert_eq!(text(&s), "23");
    assert_eq!(s.cursor, 0);
    s.move_to_end();
    s.do_delete();
    assert_eq!(text(&s), "23");
    let mut s = NumberEditState::new("45");
    s.do_delete();
    assert_eq!(text(&s), "");
}

#[test]
fn cursor_moves() {
    let mut s = NumberEditState::new("12");
    s.move_right();
    assert_eq!(s.cursor, 2);
    s.move_left();
    s.move_left();
    s.move_left();
    assert_eq!(s.cursor, 0);
    assert!(!s.text_selected);
    s.select_all();
    assert!(s.text_selected);
    assert_eq!(s.cursor, 2);
}

#[test]
fn kills() {
    let mut s = NumberEditState::new("12345");
    s.move_left();
    s.move_left();
    s.kill_to_end();
    assert_eq!(text(&s), "123");
    assert_eq!(s.cursor, 3);
    s.move_left();
    s.kill_to_start();
    assert_eq!(text(&s), "3");
    assert_eq!(s.cursor, 0);
}

#[test]
fn word_kills() {
    let mut s = NumberEditState::new("10 20  30");
    s.move_to_end();
    s.kill_word_backward();
    assert_eq!(text(&s), "10 20  ");
    assert_eq!(s.cursor, 7);
    s.kill_word_backward();
    assert_eq!(text(&s), "10 ");
    assert_eq!(s.cursor, 3);
    let mut t = NumberEditState::new("1 22 3");
    t.move_to_start();
    t.move_right();
    t.kill_word_forward();
    assert_eq!(text(&t), "1 3");
    assert_eq!(t.cursor, 1);
    let mut u = NumberEditState::new("5");
    u.move_to_start();
    u.kill_word_backward();
    assert_eq!(text(&u), "5");
}

#[test]
fn paste_keeps_only_numeric_characters() {
    let mut s = NumberEditState::new("99");
    s.insert_str("a1b2.c3");
    assert_eq!(text(&s), "12.3");
    assert_eq!(s.cursor, 4);
    s.move_to_start();
    s.insert_str("-");
    assert_eq!(text(&s), "-12.3");
    assert_eq!(s.cursor, 1);
    s.insert_str("abc");
    assert_eq!(text(&s), "-12.3");
    assert_eq!(s.cursor, 1);
}

#[test]
fn selection_delete_and_end_edit() {
    let mut s = NumberEditState::new("42");
    assert!(s.delete_selected());
    assert_eq!(text(&s), "");
    assert!(!s.delete_selected());
    assert_eq!(s.get_selected_text(), None);
    let mut e = NumberEditState::new("42");
    e.end_edit();
    assert!(!e.editing);
    assert_eq!(text(&e), "");
}

#[test]
fn edit_keys() {
    assert_eq!(edit_key_command("a", false, true, false), EditKeyCommand::SelectAll);
    assert_eq!(edit_key_command("c", true, false, false), EditKeyCommand::Copy);
    assert_eq!(edit_key_command("x", false, true, false), EditKeyCommand::Cut);
    assert_eq!(edit_key_command("v", true, false, false), EditKeyCommand::Paste);
    assert_eq!(edit_key_command("backspace", false, false, true), EditKeyCommand::KillWordBackward);
    assert_eq!(edit_key_command("d", false, false, true), EditKeyCommand::KillWordForward);
    assert_eq!(edit_key_command("e", true, false, false), EditKeyCommand::MoveToEnd);
    assert_eq!(edit_key_command("k", true, false, false), EditKeyCommand::KillToEnd);
    assert_eq!(edit_key_command("u", true, false, false), EditKeyCommand::KillToStart);
    assert_eq!(edit_key_command("w", true, false, false), EditKeyCommand::KillWordBackward);
    assert_eq!(edit_key_command("y", true, false, false), EditKeyCommand::Yank);
    assert_eq!(edit_key_command("z", true, false, false), EditKeyCommand::Redraw);
    assert_eq!(edit_key_command("enter", false, false, false), EditKeyCommand::Commit);
    assert_eq!(edit_key_command("escape", false, false, false), EditKeyCommand::Cancel);
    assert_eq!(edit_key_command("left", false, false, false), EditKeyCommand::MoveLeft);
    assert_eq!(edit_key_command("home", false, false, false), EditKeyCommand::MoveToStart);
    assert_eq!(edit_key_command("7", false, false, false), EditKeyCommand::TypeChar);
}

#[test]
fn step_keys() {
    assert_eq!(step_key_direction("up"), Some(true));
    assert_eq!(step_key_direction("right"), Some(true));
    assert_eq!(step_key_direction("down"), Some(false));
    assert_eq!(step_key_direction("left"), Some(false));
    assert_eq!(step_key_direction("enter"), None);
}
