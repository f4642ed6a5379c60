use hwatch::cmd::{CommandResult, OutputType};
use hwatch::diff::{DiffMode, StyledChar};
use hwatch::window::{
    compute_required_lines, get_pad_lines, PadOp, PadRegion, PadSize, WatchPad,
};

fn result(output: &str, stdout: &str, stderr: &str) -> CommandResult {
    CommandResult {
        timestamp: "12:00:00".to_string(),
        status: true,
        output: output.to_string(),
        stdout: stdout.to_string(),
        stderr: stderr.to_string(),
    }
}

fn lines(n: usize) -> String {
    vec!["x"; n].join("\n")
}

fn text_of(line: &[StyledChar]) -> String {
    line.iter().map(|c| c.ch).collect()
}

#[test]
fn get_pad_lines_of_single_width_text() {
    assert_eq!(get_pad_lines("", 10), 1);
    assert_eq!(get_pad_lines("abc", 10), 1);
    assert_eq!(get_pad_lines("abcdefghi", 10), 1);
    assert_eq!(get_pad_lines("abcdefghij", 10), 2);
    assert_eq!(get_pad_lines("abcdefghijk", 10), 2);
    assert_eq!(get_pad_lines(&"a".repeat(25), 10), 3);
    assert_eq!(get_pad_lines(&"a".repeat(30), 10), 4);
}

#[test]
fn get_pad_lines_is_one_plus_quotient() {
    for width in 1..12 {
        for len in 0..40usize {
            let text = "a".repeat(len);
            assert_eq!(get_pad_lines(&text, width), 1 + (len as i32) / width);
            if len as i32 % width != 0 {
                assert_eq!(get_pad_lines(&text, width), (len as i32 + width - 1) / width);
            }
        }
    }
}

#[test]
fn get_pad_lines_counts_wide_characters_twice() {
    assert_eq!(get_pad_lines("日本語", 6), 2);
    assert_eq!(get_pad_lines("日本語", 7), 1);
    assert_eq!(get_pad_lines("日本", 4), 2);
    // A wide character that passes the last column leaves the row as well.
    assert_eq!(get_pad_lines("a日", 2), 2);
    assert_eq!(get_pad_lines("a日b", 2), 2);
    assert_eq!(get_pad_lines("a日bc", 2), 3);
}

#[test]
fn get_pad_lines_with_no_room_leaves_a_row_per_character() {
    assert_eq!(get_pad_lines("abc", 0), 4);
    assert_eq!(get_pad_lines("abc", -5), 4);
    assert_eq!(get_pad_lines("abc", 1), 4);
}

#[test]
fn compute_required_lines_sums_the_lines() {
    assert_eq!(compute_required_lines("", 10), 1);
    assert_eq!(compute_required_lines("abc", 10), 1);
    assert_eq!(compute_required_lines("abc\n", 10), 2);
    assert_eq!(compute_required_lines("abc\ndef", 10), 2);
    assert_eq!(compute_required_lines("abcdefghijk\nxy\n", 10), 4);
    assert_eq!(compute_required_lines("\n\n\n", 10), 4);
}

#[test]
fn compute_required_lines_never_falls_as_text_grows() {
    let text = "one line\nand a much longer second line that wraps\n日本語\n\nend";
    let chars: Vec<char> = text.chars().collect();
    for width in [1, 3, 8, 80] {
        let mut before = 1;
        for n in 0..=chars.len() {
            let prefix: String = chars[..n].iter().collect();
            let rows = compute_required_lines(&prefix, width);
            assert!(rows >= before);
            before = rows;
        }
    }
}

#[test]
fn new_pad_is_empty_and_clamps_the_screen() {
    let pad = WatchPad::new(0, -3);
    assert_eq!(pad.pad_lines(), 0);
    assert_eq!(pad.pad_position(), 0);
    assert_eq!(pad.pad_width(), 1);
    assert_eq!(pad.scroll_limit(), 0);
    assert_eq!(pad.result(), &CommandResult::new());
    assert_eq!(pad.result_diff_output(), "");
    assert_eq!(pad.draw_output_pad(), None);
}

#[test]
fn create_pad_sizes_for_text_and_reference() {
    let mut pad = WatchPad::new(24, 103);
    assert_eq!(pad.pad_width(), 80);
    // An empty result beside an empty reference: one row, and one more than the reference needs.
    assert_eq!(pad.create_pad(OutputType::Output), PadSize { lines: 2, cols: 80 });
    pad.set_result(result(&lines(10), &lines(3), ""));
    assert_eq!(pad.create_pad(OutputType::Output), PadSize { lines: 10, cols: 80 });
    assert_eq!(pad.create_pad(OutputType::Stdout), PadSize { lines: 3, cols: 80 });
    assert_eq!(pad.create_pad(OutputType::Stderr), PadSize { lines: 2, cols: 80 });
    pad.set_result_diff_output(lines(12));
    assert_eq!(pad.create_pad(OutputType::Output), PadSize { lines: 13, cols: 80 });
    assert_eq!(pad.pad_lines(), 13);
}

#[test]
fn get_output_picks_the_stream() {
    let mut pad = WatchPad::new(24, 80);
    pad.set_result(result("both", "out", "err"));
    assert_eq!(pad.get_output(OutputType::Output), "both");
    assert_eq!(pad.get_output(OutputType::Stdout), "out");
    assert_eq!(pad.get_output(OutputType::Stderr), "err");
}

#[test]
fn output_type_from_code() {
    assert_eq!(OutputType::from_code(1), Some(OutputType::Stdout));
    assert_eq!(OutputType::from_code(2), Some(OutputType::Stderr));
    assert_eq!(OutputType::from_code(3), Some(OutputType::Output));
    assert_eq!(OutputType::from_code(0), None);
    assert_eq!(OutputType::from_code(4), None);
}

#[test]
fn scrolling_is_off_while_the_pad_fits() {
    let mut pad = WatchPad::new(24, 103);
    pad.set_result(result(&lines(24), "", ""));
    pad.create_pad(OutputType::Output);
    assert_eq!(pad.pad_lines(), 24);
    assert!(!pad.scroll_down());
    assert!(!pad.scroll_up());
    assert_eq!(pad.pad_position(), 0);
}

#[test]
fn scrolling_stops_at_the_limit() {
    let mut pad = WatchPad::new(24, 103);
    pad.set_result(result(&lines(30), "", ""));
    pad.create_pad(OutputType::Output);
    assert_eq!(pad.scroll_limit(), 7);
    assert!(!pad.scroll_up());
    for expected in 1..=7 {
        assert!(pad.scroll_down());
        assert_eq!(pad.pad_position(), expected);
    }
    assert!(!pad.scroll_down());
    assert!(!pad.scroll_down());
    assert_eq!(pad.pad_position(), 7);
    assert!(pad.scroll_up());
    assert_eq!(pad.pad_position(), 6);
}

#[test]
fn resize_brings_the_position_under_the_new_limit() {
    let mut pad = WatchPad::new(24, 103);
    pad.set_result(result(&lines(30), "", ""));
    pad.create_pad(OutputType::Output);
    for _ in 0..7 {
        pad.scroll_down();
    }
    assert_eq!(pad.pad_position(), 7);
    // A taller screen leaves less to scroll.
    let region = pad.resize(28, 103);
    assert_eq!(pad.pad_position(), 3);
    assert_eq!(
        region,
        Some(PadRegion { pad_row: 3, pad_col: 0, top: 2, left: 0, bottom: 27, right: 80 })
    );
    // A screen that shows the whole pad leaves nothing to scroll.
    pad.resize(40, 103);
    assert_eq!(pad.pad_position(), 0);
    // A smaller screen keeps the position.
    pad.resize(10, 103);
    assert_eq!(pad.pad_position(), 0);
    pad.scroll_down();
    pad.scroll_down();
    pad.resize(5, 50);
    assert_eq!(pad.pad_position(), 2);
    assert_eq!(pad.scroll_limit(), 26);
}

#[test]
fn create_pad_brings_the_position_under_the_new_limit() {
    let mut pad = WatchPad::new(24, 103);
    pad.set_result(result(&lines(40), "", ""));
    pad.create_pad(OutputType::Output);
    for _ in 0..17 {
        pad.scroll_down();
    }
    assert_eq!(pad.pad_position(), 17);
    pad.set_result(result(&lines(30), "", ""));
    pad.create_pad(OutputType::Output);
    assert_eq!(pad.pad_position(), 7);
    pad.set_result(result(&lines(3), "", ""));
    pad.create_pad(OutputType::Output);
    assert_eq!(pad.pad_position(), 0);
}

#[test]
fn draw_output_pad_gives_the_region() {
    let mut pad = WatchPad::new(24, 103);
    assert_eq!(
        pad.draw_output_pad(),
        Some(PadRegion { pad_row: 0, pad_col: 0, top: 2, left: 0, bottom: 23, right: 80 })
    );
    pad.resize(3, 23);
    assert_eq!(
        pad.draw_output_pad(),
        Some(PadRegion { pad_row: 0, pad_col: 0, top: 2, left: 0, bottom: 2, right: 0 })
    );
    pad.resize(2, 80);
    assert_eq!(pad.draw_output_pad(), None);
    pad.resize(24, 22);
    assert_eq!(pad.draw_output_pad(), None);
}

#[test]
fn update_writes_plain_lines_without_a_mode() {
    let mut pad = WatchPad::new(24, 103);
    pad.set_result(result("ab\ncd\n", "", ""));
    pad.set_result_diff_output("ab\nxx\n".to_string());
    let out = pad.update(DiffMode::Disable, OutputType::Output);
    assert_eq!(out.len(), 3);
    assert_eq!(text_of(&out[0]), "ab");
    assert_eq!(text_of(&out[1]), "cd");
    assert_eq!(text_of(&out[2]), "");
    assert!(out.iter().all(|l| l.iter().all(|c| !c.highlight)));
}

#[test]
fn update_puts_a_gutter_before_lines_in_line_mode() {
    let mut pad = WatchPad::new(24, 103);
    pad.set_result(result("ab\ncd", "", ""));
    pad.set_result_diff_output("ab\nxx".to_string());
    let out = pad.update(DiffMode::Line, OutputType::Output);
    assert_eq!(out.len(), 2);
    assert_eq!(text_of(&out[0]), "  ab");
    assert_eq!(text_of(&out[1]), "  cd");
    assert!(out[0].iter().all(|c| !c.highlight));
    assert_eq!(
        out[1],
        vec![
            StyledChar { ch: ' ', highlight: false },
            StyledChar { ch: ' ', highlight: false },
            StyledChar { ch: 'c', highlight: true },
            StyledChar { ch: 'd', highlight: true },
        ]
    );
}

#[test]
fn update_writes_the_gutter_alone_for_an_empty_stream_in_line_mode() {
    let pad = WatchPad::new(24, 103);
    let out = pad.update(DiffMode::Line, OutputType::Output);
    assert_eq!(out.len(), 1);
    assert_eq!(text_of(&out[0]), "  ");
    assert!(out[0].iter().all(|c| !c.highlight));
    assert_eq!(pad.update(DiffMode::Disable, OutputType::Output).len(), 1);
    assert_eq!(pad.update(DiffMode::Watch, OutputType::Output).len(), 1);
}

#[test]
fn update_highlights_changed_characters_in_watch_mode() {
    let mut pad = WatchPad::new(24, 103);
    pad.set_result(result("", "load 1.25", ""));
    pad.set_result_diff_output("load 1.05".to_string());
    let out = pad.update(DiffMode::Watch, OutputType::Stdout);
    assert_eq!(out.len(), 1);
    let marks: Vec<bool> = out[0].iter().map(|c| c.highlight).collect();
    assert_eq!(marks, vec![false, false, false, false, false, false, false, true, false]);
}

#[test]
fn update_output_pad_char_lists_the_steps() {
    let pad = WatchPad::new(24, 103);
    assert_eq!(
        pad.update_output_pad_char("x".to_string(), false, 0),
        vec![PadOp::Print("x".to_string())]
    );
    assert_eq!(
        pad.update_output_pad_char("x".to_string(), true, 0),
        vec![PadOp::ReverseOn, PadOp::Print("x".to_string()), PadOp::ReverseOff]
    );
    assert_eq!(
        pad.update_output_pad_char("x".to_string(), false, 3),
        vec![PadOp::ColorOn(3), PadOp::Print("x".to_string()), PadOp::ColorOff(3)]
    );
    assert_eq!(
        pad.update_output_pad_char("日".to_string(), true, -2),
        vec![
            PadOp::ReverseOn,
            PadOp::ColorOn(-2),
            PadOp::Print("日".to_string()),
            PadOp::ColorOff(-2),
            PadOp::ReverseOff
        ]
    );
}
