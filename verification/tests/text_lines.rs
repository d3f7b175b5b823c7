use blockito::text::lines;

fn owned(v: &[&str]) -> Vec<String> {
    v.iter().map(|s| s.to_string()).collect()
}

#[test]
fn lines_split_at_line_feeds() {
    assert_eq!(lines("a\nb\nc"), owned(&["a", "b", "c"]));
}

#[test]
fn lines_drop_carriage_return_before_line_feed() {
    assert_eq!(lines("a\r\nb\r\n"), owned(&["a", "b"]));
}

#[test]
fn lines_keep_lone_carriage_return() {
    assert_eq!(lines("a\rb\r"), owned(&["a\rb\r"]));
}

#[test]
fn lines_of_empty_text() {
    assert_eq!(lines(""), Vec::<String>::new());
}

#[test]
fn lines_keep_empty_lines_between_endings() {
    assert_eq!(lines("\n\nx\n\n"), owned(&["", "", "x", ""]));
}

#[test]
fn lines_match_std() {
    let samples = ["cats\nsleep\r\nmuch", "x\r\r\ny", "\r\n", "é\nü\n", "tail\r"];
    for s in samples {
        let expected: Vec<String> = s.lines().map(|l| l.to_string()).collect();
        assert_eq!(lines(s), expected);
    }
}

#[test]
fn final_line_ending_adds_no_line() {
    assert_eq!(lines("one\ntwo\n"), lines("one\ntwo"));
    assert_eq!(lines("one\ntwo\r\n"), lines("one\ntwo"));
    assert_eq!(lines("one\r\r\n"), lines("one\r"));
}

#[test]
fn no_line_holds_a_line_feed() {
    for l in lines("a\n\nb\r\nc\rd\n") {
        assert!(!l.contains('\n'));
    }
}
