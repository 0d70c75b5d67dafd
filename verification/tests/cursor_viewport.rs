use edcore::buf::CodeBuffer;
use edcore::cursor::EditorCursor;
use edcore::draw::EditorDraw;
use edcore::types::Vec2;

#[test]
fn move_right_at_line_end_is_clamped() {
    let b = CodeBuffer::new(String::from("abc"));
    let mut c = EditorCursor::default();
    let mut off: Vec2<usize> = Vec2::default();
    c.move_x_to(&b, 3);
    c.move_by(&b, &mut off, 1, 0, 10);
    let (x, y) = c.get_display(&b);
    assert_eq!((x, y), (3, 0));
}

#[test]
fn move_left_at_line_start_is_clamped() {
    let b = CodeBuffer::new(String::from("abc"));
    let mut c = EditorCursor::default();
    let mut off: Vec2<usize> = Vec2::default();
    c.move_by(&b, &mut off, -5, 0, 10);
    assert_eq!(c.get_display(&b), (0, 0));
}

#[test]
fn move_down_past_last_line_is_clamped() {
    let b = CodeBuffer::new(String::from("a\nb\nc"));
    let mut c = EditorCursor::default();
    let mut off: Vec2<usize> = Vec2::default();
    c.move_by(&b, &mut off, 0, 99, 10);
    assert_eq!(c.get_display(&b).1, 2);
    c.move_by(&b, &mut off, 0, 1, 10);
    assert_eq!(c.get_display(&b).1, 2);
}

#[test]
fn viewport_scrolls_down_to_reveal_cursor() {
    let b = CodeBuffer::new(String::from("a\nb\nc\nd\ne"));
    let mut c = EditorCursor::default();
    let mut off: Vec2<usize> = Vec2::default();
    c.move_by(&b, &mut off, 0, 4, 2);
    assert_eq!(c.get_display(&b).1, 4);
    assert_eq!(off.y, 3);
    assert!(off.y <= 4 && 4 < off.y + 2);
}

#[test]
fn viewport_scrolls_up_to_reveal_cursor() {
    let b = CodeBuffer::new(String::from("a\nb\nc\nd\ne"));
    let mut c = EditorCursor::default();
    let mut off: Vec2<usize> = Vec2::default();
    c.move_by(&b, &mut off, 0, 4, 2);
    c.move_by(&b, &mut off, 0, -4, 2);
    assert_eq!(c.get_display(&b).1, 0);
    assert_eq!(off.y, 0);
}

#[test]
fn display_column_follows_shorter_line() {
    let b = CodeBuffer::new(String::from("longline\nab"));
    let mut c = EditorCursor::default();
    let mut off: Vec2<usize> = Vec2::default();
    c.move_x_to(&b, 8);
    c.move_by(&b, &mut off, 0, 1, 10);
    assert_eq!(c.get_display(&b), (2, 1));
}

#[test]
fn cmd_moves() {
    let b = CodeBuffer::new(String::from("abc\ndef\nghi"));
    let mut c = EditorCursor::default();
    let mut off: Vec2<usize> = Vec2::default();
    c.cmd_down(&b, &mut off, 10);
    c.cmd_right(&b, &mut off, 10);
    assert_eq!(c.get_display(&b), (1, 1));
    c.cmd_line_end(&b);
    assert_eq!(c.get_display(&b), (3, 1));
    c.cmd_line_start(&b);
    assert_eq!(c.get_display(&b), (0, 1));
    c.cmd_bottom(&b, &mut off);
    assert_eq!(c.get_display(&b).1, 2);
    assert_eq!(off.y, 2);
    c.cmd_top(&b, &mut off);
    assert_eq!(c.get_display(&b).1, 0);
    assert_eq!(off.y, 0);
    c.cmd_up(&b, &mut off, 10);
    assert_eq!(c.get_display(&b).1, 0);
    c.cmd_left(&b, &mut off, 10);
    assert_eq!(c.get_display(&b).0, 0);
}

#[test]
fn move_to_clamps_both_axes() {
    let b = CodeBuffer::new(String::from("abc\nde"));
    let mut c = EditorCursor::default();
    c.move_to(&b, 99, 99);
    assert_eq!(c.get_display(&b), (2, 1));
}

#[test]
fn line_number_width_is_digit_count() {
    assert_eq!(EditorDraw::line_number_width(1), 1);
    assert_eq!(EditorDraw::line_number_width(9), 1);
    assert_eq!(EditorDraw::line_number_width(10), 2);
    assert_eq!(EditorDraw::line_number_width(99), 2);
    assert_eq!(EditorDraw::line_number_width(100), 3);
    assert_eq!(EditorDraw::line_number_width(12345), 5);
}

#[test]
fn vec2_new_sets_components() {
    let v = Vec2::new(3usize, 7usize);
    assert_eq!((v.x, v.y), (3, 7));
}
