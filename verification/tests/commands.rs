use edcore::cmd::CommandKind;
use edcore::cmd::EditorCommand;
use edcore::editor::Editor;
use edcore::mode::EditorMode;
use edcore::state::EditorState;
use edcore::types::Key;

#[test]
fn wq_with_path_requests_write_then_quits_on_success() {
    let mut e = Editor::with_path(String::from("hello\nworld"), String::from("out.txt"));
    e.on_event_at(Key::Char(':'), 0, 10);
    assert_eq!(e.state.get_mode(), EditorMode::Command);
    e.on_event_at(Key::Char('w'), 1, 10);
    e.on_event_at(Key::Char('q'), 2, 10);
    assert_eq!(e.state.cmd_buf, String::from("wq"));

    let quit = e.on_event_at(Key::Enter, 3, 10);
    assert!(!quit);
    assert_eq!(e.state.pending_write, Some(String::from("hello\nworld")));
    assert_eq!(e.state.get_path(), Some(String::from("out.txt")));
    assert_eq!(e.state.get_mode(), EditorMode::Command);

    e.state.write_finished(true);
    assert!(e.state.is_quit);
    assert_eq!(e.state.get_mode(), EditorMode::Normal);
    assert_eq!(e.state.cmd_buf, String::new());
    assert_eq!(e.state.pending_write, None);
}

#[test]
fn failed_write_keeps_command_line_and_does_not_quit() {
    let mut e = Editor::with_path(String::from("data"), String::from("out.txt"));
    e.on_event_at(Key::Char(':'), 0, 10);
    e.on_event_at(Key::Char('w'), 1, 10);
    e.on_event_at(Key::Char('q'), 2, 10);
    e.on_event_at(Key::Enter, 3, 10);

    e.state.write_finished(false);
    assert!(!e.state.is_quit);
    assert_eq!(e.state.get_mode(), EditorMode::Command);
    assert_eq!(e.state.cmd_buf, String::from("wq"));
    assert_eq!(e.state.pending_write, None);
}

#[test]
fn write_without_path_is_a_no_op() {
    let mut e = Editor::new(String::from("data"), None);
    e.on_event_at(Key::Char(':'), 0, 10);
    e.on_event_at(Key::Char('w'), 1, 10);
    e.on_event_at(Key::Enter, 2, 10);
    assert_eq!(e.state.pending_write, None);
    assert!(!e.state.is_quit);
    assert_eq!(e.state.get_mode(), EditorMode::Normal);
    assert_eq!(e.state.cmd_buf, String::new());
}

#[test]
fn quit_command_sets_the_flag() {
    let mut e = Editor::new(String::from("data"), None);
    e.on_event_at(Key::Char(':'), 0, 10);
    let quit = e.on_event_at(Key::Char('q'), 1, 10);
    assert!(!quit);
    let quit = e.on_event_at(Key::Enter, 2, 10);
    assert!(quit);
    assert!(e.state.is_quit);
}

#[test]
fn wq_without_path_still_quits() {
    let mut e = Editor::new(String::from("data"), None);
    e.on_event_at(Key::Char(':'), 0, 10);
    e.on_event_at(Key::Char('w'), 1, 10);
    e.on_event_at(Key::Char('q'), 2, 10);
    let quit = e.on_event_at(Key::Enter, 3, 10);
    assert!(quit);
    assert_eq!(e.state.pending_write, None);
}

#[test]
fn x_behaves_like_wq() {
    let mut e = Editor::with_path(String::from("t"), String::from("p"));
    e.on_event_at(Key::Char(':'), 0, 10);
    e.on_event_at(Key::Char('x'), 1, 10);
    e.on_event_at(Key::Enter, 2, 10);
    assert_eq!(e.state.pending_write, Some(String::from("t")));
    e.state.write_finished(true);
    assert!(e.state.is_quit);
}

#[test]
fn unknown_command_is_silently_ignored() {
    let mut e = Editor::new(String::from("data"), None);
    e.on_event_at(Key::Char(':'), 0, 10);
    e.on_event_at(Key::Char('z'), 1, 10);
    e.on_event_at(Key::Char('z'), 2, 10);
    let quit = e.on_event_at(Key::Enter, 3, 10);
    assert!(!quit);
    assert_eq!(e.state.get_mode(), EditorMode::Normal);
    assert_eq!(e.state.cmd_buf, String::new());
}

#[test]
fn stale_write_request_does_not_hold_the_command_line_open() {
    let mut e = Editor::new(String::from("data"), None);
    e.state.pending_write = Some(String::from("left over"));
    e.on_event_at(Key::Char(':'), 0, 10);
    e.on_event_at(Key::Char('z'), 1, 10);
    e.on_event_at(Key::Enter, 2, 10);
    assert_eq!(e.state.get_mode(), EditorMode::Normal);
    assert_eq!(e.state.cmd_buf, String::new());
}

#[test]
fn command_line_backspace_edits_and_leaves_mode_when_empty() {
    let mut e = Editor::new(String::from("data"), None);
    e.on_event_at(Key::Char(':'), 0, 10);
    e.on_event_at(Key::Char('a'), 1, 10);
    e.on_event_at(Key::Char('b'), 2, 10);
    e.on_event_at(Key::Backspace, 3, 10);
    assert_eq!(e.state.cmd_buf, String::from("a"));
    e.on_event_at(Key::Backspace, 4, 10);
    assert_eq!(e.state.cmd_buf, String::new());
    assert_eq!(e.state.get_mode(), EditorMode::Command);
    e.on_event_at(Key::Backspace, 5, 10);
    assert_eq!(e.state.get_mode(), EditorMode::Normal);
}

#[test]
fn registry_runs_movement_commands() {
    let cmds = EditorCommand::new();
    let mut s = EditorState::new(String::from("abc\ndef"), None);
    cmds.run("down", &mut s, 10);
    cmds.run("line_end", &mut s, 10);
    assert_eq!(s.cursor.get_display(&s.buf), (3, 1));
    cmds.run("top", &mut s, 10);
    assert_eq!(s.cursor.get_display(&s.buf).1, 0);
    cmds.run("nonexistent", &mut s, 10);
    assert_eq!(s.cursor.get_display(&s.buf), (3, 0));
}

#[test]
fn registered_command_overrides_earlier_one() {
    let mut cmds = EditorCommand::new();
    cmds.register("down", CommandKind::Quit);
    let mut s = EditorState::new(String::from("a\nb"), None);
    cmds.run("down", &mut s, 10);
    assert!(s.is_quit);
    assert_eq!(s.cursor.get_display(&s.buf).1, 0);
}

#[test]
fn command_mode_mode_transition_commands() {
    let mut e = Editor::new(String::from("x"), None);
    e.on_event_at(Key::Char(':'), 0, 10);
    for c in ['i', 'n', 's', 'e', 'r', 't', '_', 'b', 'e', 'f', 'o', 'r', 'e'] {
        e.on_event_at(Key::Char(c), 1, 10);
    }
    e.on_event_at(Key::Enter, 2, 10);
    assert_eq!(e.state.get_mode(), EditorMode::Normal);
}
