use edcore::editor::Editor;
use edcore::mode::EditorMode;
use edcore::state::EditorState;
use edcore::types::Key;

#[test]
fn new_state_is_normal_and_empty() {
    let s = EditorState::new(String::from("x\ny"), None);
    assert_eq!(s.get_mode(), EditorMode::Normal);
    assert_eq!(s.get_path(), None);
    assert_eq!(s.cursor.get_display(&s.buf), (0, 0));
    assert_eq!(s.offset.y, 0);
    assert!(!s.is_quit);
    assert_eq!(s.cmd_buf, String::new());
    assert!(s.key_buf.is_empty());
    assert_eq!(s.pending_write, None);
}

#[test]
fn set_and_get_mode() {
    let mut s = EditorState::new(String::from("x"), None);
    s.set_mode(EditorMode::Visual);
    assert_eq!(s.get_mode(), EditorMode::Visual);
}

#[test]
fn set_and_get_path() {
    let mut s = EditorState::new(String::from("x"), None);
    assert_eq!(s.get_path(), None);
    s.set_path(String::from("file.txt"));
    assert_eq!(s.get_path(), Some(String::from("file.txt")));
}

#[test]
fn push_and_clear_keys() {
    let mut s = EditorState::new(String::from("x"), None);
    s.push_key(1, Key::Char('a'));
    s.push_key(2, Key::Char('b'));
    assert_eq!(s.key_buf, vec![(1, Key::Char('a')), (2, Key::Char('b'))]);
    assert_eq!(s.get_keys(2), vec![Key::Char('a'), Key::Char('b')]);
    s.clear_keys();
    assert!(s.key_buf.is_empty());
}

#[test]
fn set_keys_replaces_pending() {
    let mut s = EditorState::new(String::from("x"), None);
    s.push_key(1, Key::Char('a'));
    s.set_keys(vec![(9, Key::Esc)]);
    assert_eq!(s.key_buf, vec![(9, Key::Esc)]);
}

#[test]
fn write_records_serialized_text_only_with_a_path() {
    let mut s = EditorState::new(String::from("a\nb"), None);
    s.write();
    assert_eq!(s.pending_write, None);
    s.set_path(String::from("p"));
    s.write();
    assert_eq!(s.pending_write, Some(String::from("a\nb")));
}

#[test]
fn quit_sets_the_flag() {
    let mut s = EditorState::new(String::from("x"), None);
    s.quit();
    assert!(s.is_quit);
}

#[test]
fn default_editor_is_an_empty_document() {
    let e = Editor::default();
    assert_eq!(e.state.buf.line_count(), 1);
    assert_eq!(e.state.buf.line_length(0), 0);
    assert_eq!(e.state.get_mode(), EditorMode::Normal);
    assert_eq!(e.state.get_path(), None);
}
