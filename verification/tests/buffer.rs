use edcore::buf::CodeBuffer;

fn buffer_lines(b: &CodeBuffer) -> Vec<String> {
    b.get_lines()
}

#[test]
fn insert_at_line_start() {
    let mut b = CodeBuffer::new(String::from("abc\ndef"));
    b.insert('X', 0, 0);
    assert_eq!(
        buffer_lines(&b),
        vec![String::from("Xabc"), String::from("def")]
    );
}

#[test]
fn split_then_join_restores_line() {
    let mut b = CodeBuffer::new(String::from("abc"));
    b.split_line(1, 0);
    assert_eq!(buffer_lines(&b), vec![String::from("a"), String::from("bc")]);
    b.join_lines(0);
    assert_eq!(buffer_lines(&b), vec![String::from("abc")]);
}

#[test]
fn insert_then_delete_restores_line() {
    let mut b = CodeBuffer::new(String::from("hello"));
    b.insert('Z', 2, 0);
    assert_eq!(buffer_lines(&b), vec![String::from("heZllo")]);
    b.delete(2, 0);
    assert_eq!(buffer_lines(&b), vec![String::from("hello")]);
}

#[test]
fn insert_at_line_end() {
    let mut b = CodeBuffer::new(String::from("ab"));
    b.insert('c', 2, 0);
    assert_eq!(buffer_lines(&b), vec![String::from("abc")]);
}

#[test]
fn insert_str_in_middle() {
    let mut b = CodeBuffer::new(String::from("ad"));
    b.insert_str("bc", 1, 0);
    assert_eq!(buffer_lines(&b), vec![String::from("abcd")]);
}

#[test]
fn insert_line_appends_empty_line_at_end() {
    let mut b = CodeBuffer::new(String::from("a\nb"));
    b.insert_line();
    assert_eq!(b.line_count(), 3);
    assert_eq!(b.line_length(2), 0);
}

#[test]
fn join_lines_without_line_below_is_a_no_op() {
    let mut b = CodeBuffer::new(String::from("a\nb"));
    b.join_lines(1);
    assert_eq!(buffer_lines(&b), vec![String::from("a"), String::from("b")]);
}

#[test]
fn split_at_line_end_makes_empty_line_below() {
    let mut b = CodeBuffer::new(String::from("ab"));
    b.split_line(2, 0);
    assert_eq!(buffer_lines(&b), vec![String::from("ab"), String::new()]);
}

#[test]
fn counts_and_lengths() {
    let b = CodeBuffer::new(String::from("one\ntwo\n"));
    assert_eq!(b.line_count(), 3);
    assert_eq!(b.line_length(0), 3);
    assert_eq!(b.line_length(1), 3);
    assert_eq!(b.line_length(2), 0);
}

#[test]
fn empty_document_is_one_empty_line() {
    let b = CodeBuffer::new(String::new());
    assert_eq!(b.line_count(), 1);
    assert_eq!(b.line_length(0), 0);
}

#[test]
fn serialize_round_trip() {
    let text = String::from("alpha\n\nbeta\ngamma");
    let b = CodeBuffer::new(text.clone());
    assert_eq!(b.serialize(), text);
}

#[test]
fn serialize_single_line() {
    let b = CodeBuffer::new(String::from("only"));
    assert_eq!(b.serialize(), String::from("only"));
}
