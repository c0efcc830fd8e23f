use zar::editing::cursor_fits;
use zar::editing::{edit_text, next_char_boundary, previous_char_boundary};
use zar::input::CommandEditAction;

#[test]
fn insert_and_backspace_restore_the_text() {
    let mut text = "ab".to_string();
    let mut cursor = 1;
    edit_text(&mut text, &mut cursor, CommandEditAction::Insert('é'));
    assert_eq!(text, "aéb");
    assert_eq!(cursor, 3);
    edit_text(&mut text, &mut cursor, CommandEditAction::Backspace);
    assert_eq!(text, "ab");
    assert_eq!(cursor, 1);
}

#[test]
fn cursor_moves_by_whole_characters() {
    let mut text = "añb".to_string();
    let mut cursor = 0;
    edit_text(&mut text, &mut cursor, CommandEditAction::MoveCursorRight);
    edit_text(&mut text, &mut cursor, CommandEditAction::MoveCursorRight);
    assert_eq!(cursor, 3);
    edit_text(&mut text, &mut cursor, CommandEditAction::MoveCursorLeft);
    assert_eq!(cursor, 1);
    edit_text(&mut text, &mut cursor, CommandEditAction::MoveCursorLeft);
    edit_text(&mut text, &mut cursor, CommandEditAction::MoveCursorLeft);
    assert_eq!(cursor, 0);
    edit_text(&mut text, &mut cursor, CommandEditAction::Backspace);
    assert_eq!(text, "añb");
}

#[test]
fn char_boundaries_around_multibyte_characters() {
    assert_eq!(previous_char_boundary("a€b", 4), 1);
    assert_eq!(previous_char_boundary("a€b", 0), 0);
    assert_eq!(next_char_boundary("a€b", 1), 4);
    assert_eq!(next_char_boundary("a€b", 5), 5);
}

#[test]
fn cursor_fits_only_on_character_boundaries() {
    assert!(cursor_fits("aé", 0));
    assert!(cursor_fits("aé", 1));
    assert!(!cursor_fits("aé", 2));
    assert!(cursor_fits("aé", 3));
    assert!(!cursor_fits("aé", 4));
    assert!(cursor_fits("", 0));
}
