use edcore::text::chars_to_string;
use edcore::text::lines;
use edcore::text::str_chars;

#[test]
fn test_lines() {
    let input = String::from("line1\nline2\nline3");
    let expected = vec![
        String::from("line1"),
        String::from("line2"),
        String::from("line3"),
    ];
    assert_eq!(lines(input), expected);
}

#[test]
fn lines_empty_text_is_one_empty_line() {
    assert_eq!(lines(String::new()), vec![String::new()]);
}

#[test]
fn lines_trailing_break_gives_trailing_empty_line() {
    assert_eq!(
        lines(String::from("a\n")),
        vec![String::from("a"), String::new()]
    );
}

#[test]
fn lines_only_breaks() {
    assert_eq!(
        lines(String::from("\n\n")),
        vec![String::new(), String::new(), String::new()]
    );
}

#[test]
fn str_chars_and_back() {
    let cs = str_chars("héllo");
    assert_eq!(cs, vec!['h', 'é', 'l', 'l', 'o']);
    assert_eq!(chars_to_string(&cs), String::from("héllo"));
}
