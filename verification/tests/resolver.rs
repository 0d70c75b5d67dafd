use edcore::editor::Editor;
use edcore::key::EditorKeys;
use edcore::mode::EditorMode;
use edcore::types::Key;

#[test]
fn two_quick_g_keys_resolve_to_top() {
    let mut e = Editor::new(String::from("a\nb\nc"), None);
    e.on_event_at(Key::Char('j'), 0, 10);
    e.on_event_at(Key::Char('j'), 0, 10);
    assert_eq!(e.state.cursor.get_display(&e.state.buf).1, 2);

    e.on_event_at(Key::Char('g'), 0, 10);
    assert_eq!(e.state.key_buf, vec![(0, Key::Char('g'))]);
    assert_eq!(e.state.cursor.get_display(&e.state.buf).1, 2);

    e.on_event_at(Key::Char('g'), 100, 10);
    assert_eq!(e.state.cursor.get_display(&e.state.buf).1, 0);
    assert_eq!(e.state.offset.y, 0);
    assert!(e.state.key_buf.is_empty());
}

#[test]
fn stale_first_g_ages_out() {
    let mut e = Editor::new(String::from("a\nb\nc"), None);
    e.on_event_at(Key::Char('j'), 0, 10);
    e.on_event_at(Key::Char('j'), 0, 10);

    e.on_event_at(Key::Char('g'), 0, 10);
    e.on_event_at(Key::Char('g'), 400, 10);
    assert_eq!(e.state.key_buf, vec![(400, Key::Char('g'))]);
    assert_eq!(e.state.cursor.get_display(&e.state.buf).1, 2);
}

#[test]
fn single_key_bindings_move_the_cursor() {
    let mut e = Editor::new(String::from("ab\ncd"), None);
    e.on_event_at(Key::Char('j'), 0, 10);
    e.on_event_at(Key::Char('l'), 1, 10);
    assert_eq!(e.state.cursor.get_display(&e.state.buf), (1, 1));
    e.on_event_at(Key::Char('k'), 2, 10);
    e.on_event_at(Key::Char('h'), 3, 10);
    assert_eq!(e.state.cursor.get_display(&e.state.buf), (0, 0));
}

#[test]
fn unbound_key_stays_pending() {
    let mut e = Editor::new(String::from("a"), None);
    e.on_event_at(Key::Char('z'), 5, 10);
    assert_eq!(e.state.key_buf, vec![(5, Key::Char('z'))]);
}

#[test]
fn key_freshness_window() {
    let mut e = Editor::new(String::from("a"), None);
    e.state.push_key(0, Key::Char('g'));
    assert_eq!(e.state.get_keys(299), vec![Key::Char('g')]);
    assert_eq!(e.state.get_keys(300), vec![]);
}

#[test]
fn binding_table_lookup() {
    let keys = EditorKeys::new();
    assert_eq!(
        keys.get(
            EditorMode::Normal,
            &vec![Key::Char('g'), Key::Char('g')]
        ),
        Some(String::from("top"))
    );
    assert_eq!(keys.get(EditorMode::Normal, &vec![Key::Char('g')]), None);
    assert_eq!(
        keys.get(EditorMode::Insert, &vec![Key::Esc]),
        Some(String::from("normal"))
    );
    assert_eq!(
        keys.get(EditorMode::Visual, &vec![Key::Char('h')]),
        Some(String::from("left"))
    );
    assert_eq!(keys.get(EditorMode::Command, &vec![Key::Char('h')]), None);
}

#[test]
fn later_registration_wins() {
    let mut keys = EditorKeys::new();
    keys.register(EditorMode::Normal, vec![Key::Char('h')], "line_end");
    assert_eq!(
        keys.get(EditorMode::Normal, &vec![Key::Char('h')]),
        Some(String::from("line_end"))
    );
}

#[test]
fn mode_transitions_by_keys() {
    let mut e = Editor::new(String::from("a"), None);
    assert_eq!(e.state.get_mode(), EditorMode::Normal);
    e.on_event_at(Key::Char('i'), 0, 10);
    assert_eq!(e.state.get_mode(), EditorMode::Insert);
    e.on_event_at(Key::Esc, 1, 10);
    assert_eq!(e.state.get_mode(), EditorMode::Normal);
    e.on_event_at(Key::Char('v'), 2, 10);
    assert_eq!(e.state.get_mode(), EditorMode::Visual);
    e.on_event_at(Key::Ctrl('c'), 3, 10);
    assert_eq!(e.state.get_mode(), EditorMode::Normal);
    e.on_event_at(Key::Char(':'), 4, 10);
    assert_eq!(e.state.get_mode(), EditorMode::Command);
    e.on_event_at(Key::Esc, 5, 10);
    assert_eq!(e.state.get_mode(), EditorMode::Normal);
}

#[test]
fn movement_keys_also_work_in_visual_mode() {
    let mut e = Editor::new(String::from("ab\ncd\nef"), None);
    e.on_event_at(Key::Char('v'), 0, 10);
    assert_eq!(e.state.get_mode(), EditorMode::Visual);
    e.on_event_at(Key::Char('j'), 1, 10);
    assert_eq!(e.state.cursor.get_display(&e.state.buf).1, 1);
    e.on_event_at(Key::Char('g'), 2, 10);
    e.on_event_at(Key::Char('g'), 3, 10);
    assert_eq!(e.state.cursor.get_display(&e.state.buf).1, 0);
    assert_eq!(e.state.get_mode(), EditorMode::Visual);
}

#[test]
fn on_event_with_wall_clock_dispatches_keys() {
    let mut e = Editor::new(String::from("ab"), None);
    e.on_event(Key::Char('i'), 10);
    assert_eq!(e.state.get_mode(), EditorMode::Insert);
    e.on_event(Key::Char('x'), 10);
    assert_eq!(e.state.buf.get_lines(), vec![String::from("xab")]);
}

#[test]
fn mode_names() {
    assert_eq!(EditorMode::Normal.name(), String::from("Normal"));
    assert_eq!(EditorMode::Command.name(), String::from("Command"));
    assert_eq!(EditorMode::Insert.name(), String::from("Insert"));
    assert_eq!(EditorMode::Visual.name(), String::from("Visual"));
}
