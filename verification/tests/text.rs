use hwatch::text::{count_newlines, is_wide, split_lines};

fn chars_of(s: &str) -> Vec<char> {
    s.chars().collect()
}

#[test]
fn count_newlines_counts_each_break() {
    assert_eq!(count_newlines(""), 0);
    assert_eq!(count_newlines("abc"), 0);
    assert_eq!(count_newlines("a\nb\n"), 2);
    assert_eq!(count_newlines("\n\n\n"), 3);
}

#[test]
fn count_newlines_stops_at_the_largest_u16() {
    let text = "\n".repeat(70000);
    assert_eq!(count_newlines(&text), u16::MAX);
}

#[test]
fn split_lines_gives_one_line_more_than_breaks() {
    assert_eq!(split_lines(""), vec![chars_of("")]);
    assert_eq!(split_lines("abc"), vec![chars_of("abc")]);
    assert_eq!(split_lines("a\nbc"), vec![chars_of("a"), chars_of("bc")]);
    assert_eq!(split_lines("a\n"), vec![chars_of("a"), chars_of("")]);
    assert_eq!(split_lines("\n\nx"), vec![chars_of(""), chars_of(""), chars_of("x")]);
}

#[test]
fn split_lines_agrees_with_str_split() {
    for text in ["", "x", "one\ntwo\nthree", "\n", "a\n\nb\n", "日本\n語"] {
        let want: Vec<Vec<char>> = text.split('\n').map(|l| l.chars().collect()).collect();
        assert_eq!(split_lines(text), want);
    }
}

#[test]
fn is_wide_tells_ascii_from_the_rest() {
    assert!(!is_wide('a'));
    assert!(!is_wide(' '));
    assert!(!is_wide('\u{7f}'));
    assert!(is_wide('\u{80}'));
    assert!(is_wide('é'));
    assert!(is_wide('日'));
}
