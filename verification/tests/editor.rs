use exo::editor::Editor;
use exo::keys::{KeyCode, KeyInput};

fn type_text(editor: &mut Editor, text: &str) {
    for c in text.chars() {
        editor.input(KeyInput::plain(KeyCode::Char(c)));
    }
}

#[test]
fn a_new_editor_holds_one_empty_line() {
    let editor = Editor::new();
    assert_eq!(editor.lines(), vec![String::new()]);
    assert_eq!(editor.text(), "");
}

#[test]
fn an_editor_made_from_text_holds_its_lines() {
    let editor = Editor::from_text("select 1\nfrom t");
    assert_eq!(editor.lines(), vec!["select 1".to_string(), "from t".to_string()]);
    assert_eq!(editor.text(), "select 1\nfrom t");
}

#[test]
fn an_editor_made_from_the_empty_text_holds_one_empty_line() {
    let editor = Editor::from_text("");
    assert_eq!(editor.lines(), vec![String::new()]);
}

#[test]
fn a_trailing_line_feed_is_kept() {
    let editor = Editor::from_text("a\n");
    assert_eq!(editor.lines(), vec!["a".to_string(), String::new()]);
    assert_eq!(editor.text(), "a\n");
}

#[test]
fn the_cursor_starts_at_the_top_and_follows_the_typing() {
    let mut editor = Editor::from_text("a\nb");
    assert_eq!(editor.cursor(), (0, 0));
    editor.input(KeyInput::plain(KeyCode::Down));
    editor.input(KeyInput::plain(KeyCode::End));
    assert_eq!(editor.cursor(), (1, 1));
    type_text(&mut editor, "cd");
    assert_eq!(editor.cursor(), (1, 3));
    editor.input(KeyInput::plain(KeyCode::Enter));
    assert_eq!(editor.cursor(), (2, 0));
}

#[test]
fn typed_characters_reach_the_text() {
    let mut editor = Editor::new();
    type_text(&mut editor, "select 1;");
    assert_eq!(editor.text(), "select 1;");
}

#[test]
fn enter_starts_a_new_line() {
    let mut editor = Editor::new();
    type_text(&mut editor, "a");
    editor.input(KeyInput::plain(KeyCode::Enter));
    type_text(&mut editor, "b");
    assert_eq!(editor.lines(), vec!["a".to_string(), "b".to_string()]);
    assert_eq!(editor.text(), "a\nb");
}

#[test]
fn backspace_deletes_the_character_before_the_cursor() {
    let mut editor = Editor::new();
    type_text(&mut editor, "ab");
    editor.input(KeyInput::plain(KeyCode::Backspace));
    assert_eq!(editor.text(), "a");
}

#[test]
fn typing_starts_at_the_beginning_of_given_text() {
    let mut editor = Editor::from_text("bc");
    type_text(&mut editor, "a");
    assert_eq!(editor.text(), "abc");
}

#[test]
fn movement_keys_move_the_cursor() {
    let mut editor = Editor::from_text("ac");
    editor.input(KeyInput::plain(KeyCode::Right));
    type_text(&mut editor, "b");
    assert_eq!(editor.text(), "abc");
    editor.input(KeyInput::plain(KeyCode::End));
    type_text(&mut editor, "d");
    assert_eq!(editor.text(), "abcd");
    editor.input(KeyInput::plain(KeyCode::Home));
    editor.input(KeyInput::plain(KeyCode::Delete));
    assert_eq!(editor.text(), "bcd");
}

#[test]
fn modifiers_reach_the_widget() {
    let mut editor = Editor::from_text("abc");
    editor.input(KeyInput::plain(KeyCode::End));
    // Ctrl with `h` deletes backwards, a plain `h` is typed.
    editor.input(KeyInput::with_ctrl(KeyCode::Char('h')));
    assert_eq!(editor.text(), "ab");
    editor.input(KeyInput::plain(KeyCode::Char('h')));
    assert_eq!(editor.text(), "abh");
}

#[test]
fn a_key_without_meaning_changes_nothing() {
    let mut editor = Editor::from_text("abc");
    editor.input(KeyInput::plain(KeyCode::Null));
    editor.input(KeyInput::plain(KeyCode::F(5)));
    assert_eq!(editor.text(), "abc");
}
