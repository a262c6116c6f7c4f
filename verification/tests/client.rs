use rfs::client::app::{is_valid_fs_path_segment, AppCore, AppEffect, AppState, ContentState, FsState, KeyInput};
use rfs::client::args::{camel_to_snake_case, InvocationSemantics};
use rfs::client::content::{ContentMode, ContentWindow};
use rfs::client::screen::UiWidgets;
use rfs::client::stack::FixedSizeStack;
use rfs::client::tally::{count_round, first_failure_probability, keep_testing, TestResult, MAX_METHOD_CALLS};
use rfs::client::widgets::{AvailableCommands, FsTree, StderrLogs, TitleBar};
use rfs::fs::{VirtDirEntry, VirtReadDir};
use rfs::client::cells::{cursor_line_cells, digit_count, line_cells, line_number, Cell, CellStyle};
use rfs::client::render::{fit_lines_to_window, highlight_line_section, highlight_plan, tree_window, LineRender, LineWindow, TreeWindow};
use rfs::fs::{OpenOptionsError, VirtOpenOptions};

#[test]
fn test_validate_filesystem_string() {
    assert!(is_valid_fs_path_segment("valid_string.txt"));
    assert!(is_valid_fs_path_segment("0valid_string1"));
    assert!(is_valid_fs_path_segment("a"));
    assert!(is_valid_fs_path_segment("asd"));

    assert!(!is_valid_fs_path_segment("invalid_string%.asd"));
    assert!(!is_valid_fs_path_segment("invalid_string>.asd"));
    assert!(!is_valid_fs_path_segment("invalid_string<.asd"));
    assert!(!is_valid_fs_path_segment("invalid_string|.asd"));
    assert!(!is_valid_fs_path_segment("invalid_string*.asd"));
    assert!(!is_valid_fs_path_segment("invalid_string?.asd"));
    assert!(!is_valid_fs_path_segment("invalid_string:.asd"));
    assert!(!is_valid_fs_path_segment("invalid_string\".asd"));
    assert!(!is_valid_fs_path_segment("invalid_string\\.asd"));
}

#[test]
fn empty_name_is_no_path_segment() {
    assert!(!is_valid_fs_path_segment(""));
    assert!(is_valid_fs_path_segment("."));
}

#[test]
fn test_cursor_offset() {
    let mut content_widget = ContentWindow::new();
    content_widget.set_contents(Some("1234\n1234\n123"));
    assert_eq!(content_widget.cursor_offset(), None);

    content_widget.set_cursor_pos(Some((0, 0)));
    assert_eq!(content_widget.cursor_offset(), Some(0));

    content_widget.set_cursor_pos(Some((1, 0)));
    assert_eq!(content_widget.cursor_offset(), Some(1));

    content_widget.set_cursor_pos(Some((0, 1)));
    assert_eq!(content_widget.cursor_offset(), Some(5));

    content_widget.set_cursor_pos(Some((1, 1)));
    assert_eq!(content_widget.cursor_offset(), Some(6));

    content_widget.set_cursor_pos(Some((0, 2)));
    assert_eq!(content_widget.cursor_offset(), Some(11));
}

#[test]
fn cursor_offset_counts_utf8_bytes() {
    let mut w = ContentWindow::new();
    w.set_contents(Some("é\nab"));
    w.set_cursor_pos(Some((0, 1)));
    // "é" is two bytes, plus the newline
    assert_eq!(w.cursor_offset(), Some(3));
    // a row past the end counts all rows and the row number only
    w.set_cursor_pos(Some((4, 5)));
    assert_eq!(w.cursor_offset(), Some(2 + 2 + 5));
}

#[test]
fn cursor_moves() {
    let mut w = ContentWindow::new();
    w.set_contents(Some("abcd\nxy\n123"));
    w.set_cursor_pos(Some((3, 0)));
    w.cursor_down();
    assert_eq!(w.pos(), Some((1, 1)));
    w.cursor_right();
    assert_eq!(w.pos(), Some((1, 1)));
    w.cursor_left();
    assert_eq!(w.pos(), Some((0, 1)));
    w.cursor_left();
    assert_eq!(w.pos(), Some((0, 1)));
    w.cursor_up();
    assert_eq!(w.pos(), Some((0, 0)));
    w.cursor_up();
    assert_eq!(w.pos(), Some((0, 0)));
    w.cursor_right();
    assert_eq!(w.pos(), Some((1, 0)));
    w.set_cursor_pos(Some((2, 2)));
    w.cursor_down();
    assert_eq!(w.pos(), Some((2, 2)));
    // a row past the end snaps to the last row
    w.set_cursor_pos(Some((9, 7)));
    w.cursor_left();
    assert_eq!(w.pos(), Some((2, 2)));
    // nothing moves without a cursor
    w.set_cursor_pos(None);
    w.cursor_up();
    assert_eq!(w.pos(), None);
}

#[test]
fn cursor_right_on_empty_row_stays_at_start() {
    let mut w = ContentWindow::new();
    w.set_contents(Some("ab\n\ncd"));
    w.set_cursor_pos(Some((0, 1)));
    w.cursor_right();
    assert_eq!(w.pos(), Some((0, 1)));
    w.set_cursor_pos(Some((3, 1)));
    w.cursor_right();
    assert_eq!(w.pos(), Some((0, 1)));
}

#[test]
fn content_window_setters() {
    let mut w = ContentWindow::new();
    w.set_highlight(3, 4);
    assert_eq!(w.highlight(), Some((3, 4)));
    w.clear_highlight();
    assert_eq!(w.highlight(), None);
    w.set_notification(Some("saved"));
    assert_eq!(w.notification().unwrap(), "saved");
    w.set_error_message(Some("oops"));
    assert_eq!(w.error_message().unwrap(), "oops");
    w.set_contents(None);
    assert!(w.contents().is_none());
}

#[test]
fn fixed_size_stack_drops_oldest() {
    let mut stack = FixedSizeStack::new(Some(2));
    stack.push(1);
    stack.push(2);
    assert_eq!(stack.depth(), 2);
    stack.push(3);
    assert_eq!(stack.depth(), 2);
    assert_eq!(stack.top(), Some(&3));
    assert_eq!(stack.pop(), Some(3));
    assert_eq!(stack.pop(), Some(2));
    assert_eq!(stack.pop(), None);

    let mut unbounded = FixedSizeStack::new(None);
    for i in 0..20 {
        unbounded.push(i);
    }
    assert_eq!(unbounded.depth(), 20);
    assert_eq!(unbounded.top(), Some(&19));
}

#[test]
fn snake_case_names() {
    assert_eq!(camel_to_snake_case("AtMostOnce"), "at-most-once");
    assert_eq!(camel_to_snake_case("Maybe"), "maybe");
    assert_eq!(camel_to_snake_case("already_lower"), "already_lower");
    assert_eq!(camel_to_snake_case(""), "");
    assert_eq!(InvocationSemantics::AtLeastOnce.name(), "at-least-once");
    assert_eq!(InvocationSemantics::Maybe.name(), camel_to_snake_case("Maybe"));
    assert!(InvocationSemantics::AtMostOnce.filters_duplicates());
}

#[test]
fn title_and_tree() {
    let mut title = TitleBar::new();
    assert!(title.title().is_none());
    title.set_title(Some("rfs"));
    assert_eq!(title.title().unwrap(), "rfs");

    let mut tree = FsTree::new();
    tree.select(Some(0));
    assert_eq!(tree.selection(), None);
    let listing = VirtReadDir::from_entries(vec![VirtDirEntry::new("a".to_string(), true)]);
    tree.push(listing, ".");
    tree.select(Some(0));
    assert_eq!(tree.selection(), Some(0));
    tree.select(Some(1));
    assert_eq!(tree.selection(), None);
    tree.dialogue_box(Some("name"), true);
    assert_eq!(tree.dialogue(), Some(("name", true)));
    assert_eq!(tree.dirs().len(), 1);
    tree.pop();
    assert!(tree.listing().is_none());
}

#[test]
fn stderr_logs_keep_last_hundred() {
    let mut logs = StderrLogs::new();
    logs.push("first\n\nsecond\n");
    assert_eq!(*logs.logs(), vec!["first".to_string(), "second".to_string()]);
    for i in 0..60 {
        logs.push(&format!("a{}\nb{}", i, i));
    }
    assert_eq!(logs.logs().len(), 100);
    assert_eq!(logs.logs()[99], "b59");
    assert_eq!(logs.logs()[0], "a10");
}

#[test]
fn available_commands_overwrite() {
    let mut cmds = AvailableCommands::new();
    cmds.add(&[("q", "quit"), ("h", "help")]);
    cmds.add(&[("q", "leave")]);
    let listed = cmds.commands();
    assert_eq!(listed.len(), 2);
    assert!(listed.iter().any(|(k, v)| k == "q" && v == "leave"));
    cmds.clear();
    assert!(cmds.commands().is_empty());
}

#[test]
fn rounds_count_three_calls() {
    assert_eq!(count_round(0, 0, false, false, false), (3, 0));
    assert_eq!(count_round(3, 1, true, false, true), (6, 3));
    assert_eq!(count_round(9, 0, true, true, true), (12, 3));

    // an iteration whose every call fails stops at the failure threshold
    let (mut calls, mut failures) = (0usize, 0usize);
    while keep_testing(calls, failures) {
        (calls, failures) = count_round(calls, failures, true, true, true);
    }
    assert_eq!((calls, failures), (51, 51));

    // one without failures stops once the failure rate is checked
    let (mut calls, mut failures) = (0usize, 0usize);
    while keep_testing(calls, failures) {
        (calls, failures) = count_round(calls, failures, false, false, false);
    }
    assert_eq!((calls, failures), (1_002, 0));
    assert!(calls % 3 == 0 && calls <= MAX_METHOD_CALLS + 2);
}

#[test]
fn keep_testing_decisions() {
    assert!(keep_testing(0, 0));
    assert!(!keep_testing(10_000, 0));
    assert!(!keep_testing(10, 50));
    assert!(!keep_testing(1_000, 0));
    assert!(keep_testing(1_000, 1));
    assert!(!keep_testing(2_001, 2));

    let mut r = TestResult::default();
    r.record_non_idempotent(1);
    r.record_non_idempotent(2);
    assert_eq!(r.non_idempotent_calls, 2);
    assert_eq!(r.non_idempotent_mismatches, 1);
    r.add_iteration(30, 3);
    assert_eq!(r.method_call_count, 30);
    let mut other = TestResult::default();
    other.inverse_failure_probability = Some(10);
    assert_eq!(first_failure_probability(&[r, other]), Some(10));
}

fn listing_of(names: &[(&str, bool)]) -> VirtReadDir {
    VirtReadDir::from_entries(names.iter().map(|(n, f)| VirtDirEntry::new(n.to_string(), *f)).collect())
}

#[test]
fn app_navigates_filesystem() {
    let mut core = AppCore::new();
    let mut ui = UiWidgets::new();
    core.init(&mut ui, listing_of(&[("notes.txt", true), ("docs", false)]));
    assert!(matches!(core.state(), AppState::InFileSystem(FsState::Navigate)));

    assert!(matches!(core.handle_app_state(&mut ui, KeyInput::Down), AppEffect::Nothing));
    assert_eq!(core.filesystem_pos(), 1);
    assert!(matches!(core.handle_app_state(&mut ui, KeyInput::Down), AppEffect::Nothing));
    assert_eq!(core.filesystem_pos(), 1);

    match core.handle_app_state(&mut ui, KeyInput::Enter) {
        AppEffect::EnterDir { path } => {
            assert_eq!(path, "docs");
            core.dir_entered(&mut ui, path, "docs", listing_of(&[("inner.txt", true)]));
        }
        other => panic!("unexpected effect {:?}", other),
    }
    assert_eq!(core.filesystem_pos(), 0);
    assert_eq!(ui.fs_widget.selection(), Some(0));

    match core.handle_app_state(&mut ui, KeyInput::Backspace) {
        AppEffect::ReloadParent { path } => {
            assert_eq!(path, ".");
            core.parent_reloaded(&mut ui, path, listing_of(&[("notes.txt", true), ("docs", false)]));
        }
        other => panic!("unexpected effect {:?}", other),
    }

    match core.handle_app_state(&mut ui, KeyInput::Enter) {
        AppEffect::OpenFile { path } => {
            assert_eq!(path, "notes.txt");
            core.file_opened(&mut ui, "hi\nthere".to_string());
        }
        other => panic!("unexpected effect {:?}", other),
    }
    assert!(matches!(core.state(), AppState::InContent(ContentState::Navigate)));
    assert!(ui.content_widget.is_focused());

    // typing inserts at the cursor
    core.handle_app_state(&mut ui, KeyInput::Down);
    core.handle_app_state(&mut ui, KeyInput::Enter);
    assert!(matches!(core.state(), AppState::InContent(ContentState::Insert)));
    core.handle_app_state(&mut ui, KeyInput::Char('!'));
    assert_eq!(ui.content_widget.contents().unwrap(), "hi\n!there");
    assert_eq!(core.cursor_pos(), Some(4));
    match core.handle_app_state(&mut ui, KeyInput::Esc) {
        AppEffect::WriteInsert { offset, bytes } => {
            // written where the insertion began, not at the moved cursor
            assert_eq!(offset, 3);
            assert_eq!(bytes, b"!".to_vec());
        }
        other => panic!("unexpected effect {:?}", other),
    }
    assert!(matches!(core.state(), AppState::InContent(ContentState::Navigate)));
}

#[test]
fn app_names_new_file() {
    let mut core = AppCore::new();
    let mut ui = UiWidgets::new();
    core.init(&mut ui, listing_of(&[]));
    core.handle_app_state(&mut ui, KeyInput::Char('f'));
    assert!(matches!(core.state(), AppState::InFileSystem(FsState::CreateFile(_))));
    core.handle_app_state(&mut ui, KeyInput::Char('a'));
    core.handle_app_state(&mut ui, KeyInput::Char('%'));
    assert_eq!(ui.fs_widget.dialogue(), Some(("a%", true)));
    core.handle_app_state(&mut ui, KeyInput::Backspace);
    assert_eq!(ui.fs_widget.dialogue(), Some(("a", false)));
    match core.handle_app_state(&mut ui, KeyInput::Enter) {
        AppEffect::CreateFile { path } => assert_eq!(path, "./a"),
        other => panic!("unexpected effect {:?}", other),
    }
    core.file_created(&mut ui);
    assert!(core.has_file());
    assert!(matches!(core.state(), AppState::InContent(ContentState::Navigate)));
    assert_eq!(ui.fs_widget.dialogue(), None);
}

#[test]
fn app_top_level_focus() {
    let mut core = AppCore::new();
    let mut ui = UiWidgets::new();
    assert!(matches!(core.state(), AppState::OnContent));
    core.handle_app_state(&mut ui, KeyInput::Left);
    assert!(matches!(core.state(), AppState::OnFileSystem));
    assert!(ui.fs_widget.is_focused());
    assert!(matches!(core.handle_app_state(&mut ui, KeyInput::Esc), AppEffect::Quit));
    core.handle_app_state(&mut ui, KeyInput::Right);
    assert!(matches!(core.state(), AppState::OnContent));
    assert!(ui.content_widget.is_focused());
}

#[test]
fn highlight_plans() {
    let plan = highlight_plan("0123456789\n0123456789\n0123456789\n", 3, 10);
    assert_eq!(plan.len(), 4);
    assert_eq!(plan[0], LineRender::Highlighted { start: 3, end: 10 });
    assert_eq!(plan[1], LineRender::Highlighted { start: 0, end: 2 });
    assert_eq!(plan[2], LineRender::Numbered);
    assert_eq!(plan[3], LineRender::Numbered);

    // an offset that ends a line skips it and the newline
    let plan = highlight_plan("ab\ncd", 2, 1);
    assert_eq!(plan, vec![LineRender::Numbered, LineRender::Highlighted { start: 0, end: 1 }]);
    // an empty line inside the region keeps its number
    let plan = highlight_plan("\nxy", 0, 2);
    assert_eq!(plan, vec![LineRender::Numbered, LineRender::Highlighted { start: 0, end: 1 }]);

    let plan = highlight_plan("\n", 0, 1);
    assert_eq!(plan, vec![LineRender::Numbered, LineRender::Numbered]);

    // a region starting inside a line covers exactly its length
    let plan = highlight_plan("0123456789", 2, 3);
    assert_eq!(plan, vec![LineRender::Highlighted { start: 2, end: 5 }]);

    let plan = highlight_plan("0123456789\nabc", 8, 4);
    assert_eq!(
        plan,
        vec![LineRender::Highlighted { start: 8, end: 10 }, LineRender::Highlighted { start: 0, end: 1 }]
    );

    // nothing to highlight from inside a line
    let plan = highlight_plan("abc", 1, 0);
    assert_eq!(plan, vec![LineRender::Numbered]);
}

#[test]
fn windows_keep_selection_in_view() {
    assert_eq!(fit_lines_to_window(5, 0, 10, true, 2), LineWindow { first: 0, count: 5 });
    // 20 lines, 8 rows, selection on line 12 with 2 lines below it
    assert_eq!(fit_lines_to_window(20, 12, 10, true, 2), LineWindow { first: 7, count: 8 });
    assert_eq!(tree_window(3, 1, 10), TreeWindow { first: 0, count: 3, selected_row: 1 });
    assert_eq!(tree_window(30, 20, 10), TreeWindow { first: 13, count: 8, selected_row: 7 });
}

#[test]
fn open_options_checks() {
    let o = VirtOpenOptions::new().write(true).truncate(true);
    assert!(o.check().is_ok());
    let o = VirtOpenOptions::new().append(true).truncate(true);
    assert_eq!(o.check(), Err(OpenOptionsError::AppendAndTruncate));
    let o = VirtOpenOptions::new().read(true).truncate(true);
    assert_eq!(o.check(), Err(OpenOptionsError::TruncateWithoutWrite));
    assert_eq!(OpenOptionsError::TruncateWithoutWrite.message(), "cannot truncate file without writing");
    assert!(VirtOpenOptions::new().create(true).check().is_ok());
}

#[test]
fn test_logs_last_lines() {
    let mut logs = StderrLogs::new();
    logs.push("one\ntwo\n\nthree\n");
    assert_eq!(logs.last_lines(2), vec!["two".to_string(), "three".to_string()]);
    assert_eq!(logs.last_lines(10).len(), 3);
    assert_eq!(logs.last_lines(0).len(), 0);
}

#[test]
fn test_commands_sorted_by_key() {
    let mut cmds = AvailableCommands::new();
    cmds.add(&[("UP/DOWN", "navigate"), ("ESC", "exit"), ("f", "create file"), ("ENTER", "enter"), ("ESC", "leave")]);
    let sorted = cmds.sorted_commands();
    let keys: Vec<&str> = sorted.iter().map(|(k, _)| k.as_str()).collect();
    assert_eq!(keys, vec!["ENTER", "ESC", "UP/DOWN", "f"]);
    assert_eq!(sorted[1].1, "leave");
    assert_eq!(sorted.len(), cmds.commands().len());
}

#[test]
fn test_highlight_line_section() {
    // characters 2 to 6 of the line are highlighted: the line number, the
    // text before, the highlighted text and the text after
    let spans = highlight_line_section("hello world", 2, 6);
    assert_eq!(spans, LineRender::Highlighted { start: 2, end: 6 });
    // a range that is not within the line leaves it bare
    assert_eq!(highlight_line_section("hello", 2, 9), LineRender::Bare);
    assert_eq!(highlight_line_section("hello", 3, 3), LineRender::Bare);
}

#[test]
fn test_highlight_text() {
    let contents = "0123456789\n0123456789\n0123456789\n";
    let plan = highlight_plan(contents, 3, 10);
    assert_eq!(
        plan,
        vec![
            LineRender::Highlighted { start: 3, end: 10 },
            LineRender::Highlighted { start: 0, end: 2 },
            LineRender::Numbered,
            LineRender::Numbered,
        ]
    );
}

/// The texts of a line's cells.
fn cell_texts(cells: &[Cell]) -> Vec<&str> {
    cells.iter().map(|c| c.text.as_str()).collect()
}

#[test]
fn highlighted_text_cells() {
    // exactly the three characters from offset 2 are highlighted
    let text = "0123456789";
    let plan = highlight_plan(text, 2, 3);
    let cells = line_cells(text, 0, digit_count(1), plan[0], false);
    assert_eq!(cell_texts(&cells), vec!["1 | ", "01", "234", "56789"]);
    assert_eq!(
        cells.iter().map(|c| c.style).collect::<Vec<_>>(),
        vec![CellStyle::Number, CellStyle::Plain, CellStyle::Highlight, CellStyle::Plain]
    );

    // every line keeps its number, the cursor's line marked
    let text = "\nab";
    let plan = highlight_plan(text, 0, 1);
    let lines: Vec<&str> = text.split('\n').collect();
    let first = line_cells(lines[0], 0, digit_count(2), plan[0], true);
    assert_eq!(cell_texts(&first), vec!["1 > ", ""]);
    assert_eq!(first[0].style, CellStyle::CursorNumber);
    let second = line_cells(lines[1], 1, digit_count(2), plan[1], false);
    assert_eq!(cell_texts(&second), vec!["2 | ", "ab"]);
}

#[test]
fn line_numbers_are_padded() {
    assert_eq!(line_number(7, 3, '|'), "7   | ");
    assert_eq!(line_number(123, 2, '>'), "123 > ");
    assert_eq!(line_number(0, 0, '|'), "0 | ");
    assert_eq!(digit_count(0), 1);
    assert_eq!(digit_count(9), 1);
    assert_eq!(digit_count(10), 2);
    assert_eq!(digit_count(12345), 5);
    for n in [1usize, 5, 42, 1000, 99999] {
        assert_eq!(line_number(n, 4, '|'), format!("{:<4} {} ", n, '|'));
    }
}

#[test]
fn cursor_line_cells_mark_the_column() {
    let cells = cursor_line_cells("abc", 9, 2, 1);
    assert_eq!(cell_texts(&cells), vec!["10 > ", "a", "b", "c"]);
    assert_eq!(
        cells.iter().map(|c| c.style).collect::<Vec<_>>(),
        vec![CellStyle::CursorNumber, CellStyle::Plain, CellStyle::Cursor, CellStyle::Plain]
    );
    let bare = line_cells("xy", 0, 1, LineRender::Bare, false);
    assert_eq!(cell_texts(&bare), vec!["xy"]);
}

#[test]
fn cursor_moves_on_long_rows() {
    let long = "a".repeat(65_537);
    let mut w = ContentWindow::new();
    w.set_contents(Some(&long));
    w.set_cursor_pos(Some((5, 0)));
    w.cursor_right();
    assert_eq!(w.pos(), Some((6, 0)));
    // the column stops at the largest one a cursor holds
    w.set_cursor_pos(Some((u16::MAX, 0)));
    w.cursor_right();
    assert_eq!(w.pos(), Some((u16::MAX, 0)));
    // a row past the end snaps to the last row, the column kept
    w.set_cursor_pos(Some((100, 3)));
    w.cursor_left();
    assert_eq!(w.pos(), Some((100, 0)));

    let mut w = ContentWindow::new();
    w.set_contents(Some(&format!("{}\nab", "b".repeat(65_536))));
    w.set_cursor_pos(Some((40_000, 0)));
    w.cursor_down();
    assert_eq!(w.pos(), Some((1, 1)));
    w.cursor_up();
    assert_eq!(w.pos(), Some((1, 0)));
}

#[test]
fn long_lines_keep_their_numbers() {
    let long = "x".repeat(65_536);
    assert_eq!(highlight_plan(&long, 0, 1), vec![LineRender::Highlighted { start: 0, end: 1 }]);
    let longer = "y".repeat(70_000);
    assert_eq!(
        highlight_plan(&longer, 65_540, 3),
        vec![LineRender::Highlighted { start: 65_540, end: 65_543 }]
    );
    let text = format!("{}\nab", long);
    assert_eq!(
        highlight_plan(&text, 0, 65_538),
        vec![LineRender::Highlighted { start: 0, end: 65_536 }, LineRender::Highlighted { start: 0, end: 1 }]
    );
}

#[test]
fn content_window_render_modes() {
    let mut w = ContentWindow::new();
    assert_eq!(w.render_mode(), ContentMode::Blank);
    w.set_contents(Some("ab\ncd"));
    assert_eq!(w.render_mode(), ContentMode::Numbered);
    w.set_cursor_pos(Some((0, 1)));
    assert_eq!(w.render_mode(), ContentMode::WithCursor);
    w.set_highlight(1, 2);
    assert_eq!(w.render_mode(), ContentMode::Highlighted);
    w.set_contents(None);
    assert_eq!(w.render_mode(), ContentMode::Blank);
}
