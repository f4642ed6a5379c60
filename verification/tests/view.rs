use hwatch::cmd::{CommandResult, OutputType};
use hwatch::diff::DiffMode;
use hwatch::history::Tint;
use hwatch::view::{place_history, Action, Command, Event, Focus, Input, Mode, WatchView};
use hwatch::window::PadRegion;
use tui::layout::Rect;
use tui::widgets::TableState;

fn run(timestamp: &str, text: &str, status: bool) -> CommandResult {
    CommandResult {
        timestamp: timestamp.to_string(),
        status,
        output: text.to_string(),
        stdout: text.to_string(),
        stderr: String::new(),
    }
}

fn shown(view: &WatchView) -> String {
    view.pad().result().output.clone()
}

#[test]
fn new_view_watches_the_output_pane() {
    let view = WatchView::new(Mode::Watch, 24, 103);
    assert_eq!(view.mode(), Mode::Watch);
    assert_eq!(view.focus(), Focus::Output);
    assert_eq!(view.output_type(), OutputType::Output);
    assert!(!view.color());
    assert_eq!(view.interval(), 2);
    assert_eq!(hwatch::DEFAULT_INTERVAL, 2);
    assert_eq!(hwatch::HISTORY_WIDTH, 21);
    assert_eq!(view.history().len(), 1);
    assert_eq!(view.result_count(), 0);
    assert_eq!(view.pad().pad_lines(), 0);
    assert_eq!(view.history().area(), Rect::new(82, 2, 21, 22));
}

#[test]
fn history_table_stands_at_the_right_edge() {
    assert_eq!(place_history(24, 103), Rect::new(82, 2, 21, 22));
    assert_eq!(place_history(24, 80), Rect::new(59, 2, 21, 22));
    assert_eq!(place_history(24, 10), Rect::new(0, 2, 10, 22));
    assert_eq!(place_history(1, 30), Rect::new(9, 1, 21, 0));
    assert_eq!(place_history(0, 0), Rect::new(0, 0, 0, 0));
    assert_eq!(place_history(-1, -1), Rect::new(0, 0, 0, 0));
    assert_eq!(place_history(70000, 70000), Rect::new(65514, 2, 21, 65533));
    let mut view = WatchView::new(Mode::Watch, 24, 103);
    view.handle(Event::Resize(40, 120));
    assert_eq!(view.history().area(), Rect::new(99, 2, 21, 38));
}

#[test]
fn two_runs_enter_the_history_and_the_store() {
    let mut view = WatchView::new(Mode::Watch, 24, 103);
    assert_eq!(view.handle(Event::Output(run("10:00:00", "A\n", true))), Action::Render);
    assert_eq!(view.history().len(), 2);
    assert_eq!(shown(&view), "A\n");
    assert_eq!(view.handle(Event::Output(run("10:00:02", "B\n", true))), Action::Render);
    assert_eq!(view.history().len(), 3);
    assert_eq!(shown(&view), "B\n");
    assert_eq!(view.pad().result_diff_output(), "A\n");
    // Selecting index 2 pins the first run.
    view.handle(Event::Input(Input::ToggleFocus));
    view.handle(Event::Input(Input::Down));
    assert_eq!(view.history().selected_row(), 1);
    assert_eq!(shown(&view), "B\n");
    view.handle(Event::Input(Input::Down));
    assert_eq!(view.history().selected_row(), 2);
    assert_eq!(view.history().get_state_select(), 1);
    assert_eq!(shown(&view), "A\n");
    assert_eq!(view.pad().result_diff_output(), "");
    assert_eq!(view.result_of(1).map(|r| r.output.as_str()), Some("A\n"));
    assert_eq!(view.result_of(2).map(|r| r.output.as_str()), Some("B\n"));
    assert_eq!(view.result_of(0), None);
    assert_eq!(view.result_of(3), None);
}

#[test]
fn failed_run_marks_both_rows() {
    let mut view = WatchView::new(Mode::Watch, 24, 103);
    view.handle(Event::Output(run("10:00:00", "ok", true)));
    view.handle(Event::Output(run("10:00:02", "boom", false)));
    let table = view.history_table();
    assert_eq!(table.rows[1].cells[0].text, "10:00:02");
    assert_eq!(table.rows[1].cells[0].tint, Tint::Failure);
    assert_eq!(table.rows[2].cells[0].tint, Tint::Success);
    assert_eq!(table.rows[0].cells[0].tint, Tint::Latest);
    // The first row follows the status of the failed run.
    assert!(!view.history().latest_status());
    assert!(!view.history().rows()[1][0].status);
    assert!(view.history().rows()[2][0].status);
    assert!(!view.pad().result().status);
    view.handle(Event::Output(run("10:00:04", "fine", true)));
    assert!(view.history().latest_status());
}

#[test]
fn resize_while_scrolled_reclamps_the_position() {
    let mut view = WatchView::new(Mode::Watch, 24, 103);
    let text = vec!["line"; 60].join("\n");
    view.handle(Event::Output(run("10:00:00", &text, true)));
    assert_eq!(view.pad().pad_lines(), 60);
    for _ in 0..37 {
        assert_eq!(view.handle(Event::Input(Input::Down)), Action::Render);
    }
    assert_eq!(view.pad().pad_position(), 37);
    assert_eq!(view.handle(Event::Input(Input::Down)), Action::Idle);
    assert_eq!(view.handle(Event::Resize(50, 103)), Action::Render);
    assert_eq!(view.pad().pad_position(), 11);
    assert_eq!(
        view.pad_region(),
        Some(PadRegion { pad_row: 11, pad_col: 0, top: 2, left: 0, bottom: 49, right: 80 })
    );
    view.handle(Event::Resize(80, 103));
    assert_eq!(view.pad().pad_position(), 0);
    view.handle(Event::Resize(-1, -1));
    assert!(view.pad().pad_position() >= 0);
    assert!(view.pad().pad_position() <= view.pad().scroll_limit());
}

#[test]
fn resize_sizes_the_pad_for_the_new_width() {
    let mut view = WatchView::new(Mode::Watch, 24, 103);
    view.handle(Event::Output(run("t", &"a".repeat(100), true)));
    assert_eq!(view.pad().pad_lines(), 2);
    view.handle(Event::Resize(24, 33));
    assert_eq!(view.pad().pad_lines(), 11);
}

#[test]
fn pinned_selection_keeps_its_run_when_a_new_one_arrives() {
    let mut view = WatchView::new(Mode::Watch, 24, 103);
    view.handle(Event::Output(run("t1", "A", true)));
    view.handle(Event::Output(run("t2", "B", true)));
    view.handle(Event::Input(Input::ToggleFocus));
    view.handle(Event::Input(Input::Down));
    assert_eq!(view.history().get_state_select(), 2);
    assert_eq!(shown(&view), "B");
    view.handle(Event::Output(run("t3", "C", false)));
    // The selection moved down with its row, and the pad still shows the pinned run.
    assert_eq!(view.history().len(), 4);
    assert_eq!(view.history().selected_row(), 2);
    assert_eq!(view.history().get_state_select(), 2);
    assert_eq!(shown(&view), "B");
    // Back on the first row the pad follows the latest run again.
    view.handle(Event::Input(Input::Up));
    assert_eq!(view.history().get_state_select(), 3);
    assert_eq!(shown(&view), "C");
    assert_eq!(view.pad().result_diff_output(), "B");
    view.handle(Event::Input(Input::Up));
    assert_eq!(view.history().selected_row(), 0);
    assert_eq!(shown(&view), "C");
    assert_eq!(view.handle(Event::Input(Input::Up)), Action::Idle);
    view.handle(Event::Output(run("t4", "D", true)));
    assert_eq!(shown(&view), "D");
    assert_eq!(view.pad().result_diff_output(), "C");
}

#[test]
fn toggle_diff_mode_cycles_three_modes() {
    let mut view = WatchView::new(Mode::Watch, 24, 103);
    assert_eq!(view.handle(Event::Input(Input::ToggleDiffMode)), Action::Render);
    assert_eq!(view.mode(), Mode::DiffLine);
    view.handle(Event::Input(Input::ToggleDiffMode));
    assert_eq!(view.mode(), Mode::DiffWatch);
    view.handle(Event::Input(Input::ToggleDiffMode));
    assert_eq!(view.mode(), Mode::Watch);
    assert_eq!(view.focus(), Focus::Output);
    assert_eq!(Mode::Watch.next(), Mode::DiffLine);
    assert_eq!(Mode::HistoryBrowsing.next(), Mode::HistoryBrowsing);
    view.switch_diff(Mode::HistoryBrowsing);
    assert_eq!(view.handle(Event::Input(Input::ToggleDiffMode)), Action::Idle);
    assert_eq!(view.mode(), Mode::HistoryBrowsing);
}

#[test]
fn modes_map_to_difference_modes() {
    assert_eq!(Mode::Watch.diff_mode(), DiffMode::Disable);
    assert_eq!(Mode::DiffWatch.diff_mode(), DiffMode::Watch);
    assert_eq!(Mode::DiffLine.diff_mode(), DiffMode::Line);
    assert_eq!(Mode::HistoryBrowsing.diff_mode(), DiffMode::Disable);
}

#[test]
fn toggle_focus_keeps_the_mode() {
    let mut view = WatchView::new(Mode::DiffWatch, 24, 103);
    assert_eq!(view.handle(Event::Input(Input::ToggleFocus)), Action::Render);
    assert_eq!(view.focus(), Focus::History);
    assert!(view.history().active());
    assert_eq!(view.mode(), Mode::DiffWatch);
    view.handle(Event::Input(Input::ToggleFocus));
    assert_eq!(view.focus(), Focus::Output);
    assert!(!view.history().active());
    assert_eq!(view.mode(), Mode::DiffWatch);
}

#[test]
fn inputs_map_to_commands_by_focus() {
    assert_eq!(Input::Up.command(Focus::Output), Command::ScrollUp);
    assert_eq!(Input::Down.command(Focus::Output), Command::ScrollDown);
    assert_eq!(Input::Up.command(Focus::History), Command::SelectNext);
    assert_eq!(Input::Down.command(Focus::History), Command::SelectPrevious);
    assert_eq!(Input::ToggleFocus.command(Focus::History), Command::ToggleFocus);
    assert_eq!(Input::ToggleDiffMode.command(Focus::Output), Command::ToggleDiffMode);
    assert_eq!(Input::Quit.command(Focus::Output), Command::Quit);
}

#[test]
fn quit_and_exit_end_the_loop() {
    let mut view = WatchView::new(Mode::Watch, 24, 103);
    view.handle(Event::Output(run("t", "A", true)));
    assert_eq!(view.handle(Event::Input(Input::Quit)), Action::Exit);
    assert_eq!(view.handle(Event::Exit), Action::Exit);
    assert_eq!(view.command(Command::Resize), Action::Render);
    assert_eq!(view.history().len(), 2);
    assert_eq!(shown(&view), "A");
}

#[test]
fn up_and_down_scroll_while_the_output_has_the_focus() {
    let mut view = WatchView::new(Mode::Watch, 10, 103);
    view.handle(Event::Output(run("t", &vec!["x"; 15].join("\n"), true)));
    assert_eq!(view.handle(Event::Input(Input::Up)), Action::Idle);
    assert_eq!(view.handle(Event::Input(Input::Down)), Action::Render);
    assert_eq!(view.pad().pad_position(), 1);
    assert_eq!(view.history().selected_row(), 0);
    assert_eq!(view.handle(Event::Input(Input::Up)), Action::Render);
    assert_eq!(view.pad().pad_position(), 0);
}

#[test]
fn output_lines_follow_the_mode() {
    let mut view = WatchView::new(Mode::Watch, 24, 103);
    view.handle(Event::Output(run("t1", "cpu 10\nmem 20", true)));
    view.handle(Event::Output(run("t2", "cpu 15\nmem 20", true)));
    let count = |view: &WatchView| -> usize {
        view.output_lines().iter().map(|l| l.iter().filter(|c| c.highlight).count()).sum()
    };
    assert_eq!(count(&view), 0);
    view.switch_diff(Mode::DiffWatch);
    assert_eq!(count(&view), 1);
    view.switch_diff(Mode::DiffLine);
    assert_eq!(count(&view), 6);
    let first: String = view.output_lines()[0].iter().map(|c| c.ch).collect();
    assert_eq!(first, "  cpu 15");
}

#[test]
fn set_output_type_shows_the_other_stream() {
    let mut view = WatchView::new(Mode::Watch, 24, 103);
    let mut result = run("t", "both", true);
    result.stdout = "out".to_string();
    result.stderr = "err\nerr".to_string();
    view.handle(Event::Output(result));
    view.set_output_type(OutputType::Stderr);
    assert_eq!(view.output_type(), OutputType::Stderr);
    let lines: Vec<String> =
        view.output_lines().iter().map(|l| l.iter().map(|c| c.ch).collect()).collect();
    assert_eq!(lines, vec!["err", "err"]);
    assert_eq!(view.pad().pad_lines(), 2);
}

#[test]
fn setters_store_their_arguments() {
    let mut view = WatchView::new(Mode::Watch, 24, 103);
    view.set_color(true);
    view.set_interval(5);
    view.set_history_area(Rect::new(82, 2, 21, 22));
    assert!(view.color());
    assert_eq!(view.interval(), 5);
    assert_eq!(view.history().area(), Rect::new(82, 2, 21, 22));
}

#[test]
fn reset_history_selects_the_first_row() {
    let mut view = WatchView::new(Mode::Watch, 24, 103);
    view.handle(Event::Output(run("t1", "A", true)));
    view.handle(Event::Output(run("t2", "B", true)));
    view.handle(Event::Input(Input::ToggleFocus));
    view.handle(Event::Input(Input::Down));
    view.handle(Event::Input(Input::Down));
    assert_eq!(shown(&view), "A");
    let data = vec![
        vec![hwatch::history::History { timestamp: "latest".to_string(), status: true, num: 0 }],
        vec![hwatch::history::History { timestamp: "t1".to_string(), status: true, num: 1 }],
    ];
    view.reset_history(data);
    assert_eq!(view.history().len(), 2);
    assert_eq!(view.history().selected_row(), 0);
    assert_eq!(shown(&view), "B");
}

#[test]
fn sync_history_state_keeps_the_selection() {
    let mut view = WatchView::new(Mode::Watch, 24, 103);
    let copy = view.history().state().clone();
    assert!(view.sync_history_state(copy));
    assert!(!view.sync_history_state(TableState::default()));
    assert_eq!(view.history().selected_row(), 0);
}

#[test]
fn numbers_run_out_after_the_largest_u16() {
    let mut view = WatchView::new(Mode::Watch, 24, 103);
    let first_row = || {
        vec![vec![hwatch::history::History {
            timestamp: "latest".to_string(),
            status: true,
            num: 0,
        }]]
    };
    for i in 0..65535u32 {
        view.output(run("t", if i % 2 == 0 { "even" } else { "odd" }, true));
        // A short table keeps the run fast; the results stay recorded.
        if i % 512 == 511 {
            view.reset_history(first_row());
        }
    }
    assert_eq!(view.result_count(), 65535);
    assert_eq!(view.history().rows()[1][0].num, 65535);
    let rows = view.history().len();
    view.output(run("last", "beyond", false));
    assert_eq!(view.result_count(), 65535);
    assert_eq!(view.history().len(), rows);
    assert_eq!(view.history().rows()[1][0].num, 65535);
    assert!(!view.history().latest_status());
    assert_eq!(shown(&view), "beyond");
    assert_eq!(view.pad().result_diff_output(), "even");
}
