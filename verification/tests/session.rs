//! Commands, search, persistence gate, modal input and configuration.

use pe::command::{parse_command, parse_u32, Command};
use pe::config::color::Color;
use pe::config::settings::{Settings, TabType};
use pe::config::theme::Theme;
use pe::config::Config;
use pe::cursor::Cursor;
use pe::editor::{CurrentScreen, EditMode, Editor, Key, StatusMessage};
use pe::util::is_executable;

fn line(s: &str) -> Vec<char> {
    s.chars().collect()
}

fn editor_with(lines: &[&str]) -> Editor {
    let mut ed = Editor::new();
    ed.lines = lines.iter().map(|s| line(s)).collect();
    ed
}

#[test]
fn parse_u32_accepts_exactly_the_fitting_digit_strings() {
    assert_eq!(parse_u32(&line("0")), Some(0));
    assert_eq!(parse_u32(&line("123")), Some(123));
    assert_eq!(parse_u32(&line("4294967295")), Some(u32::MAX));
    assert_eq!(parse_u32(&line("4294967296")), None);
    assert_eq!(parse_u32(&line("")), None);
    assert_eq!(parse_u32(&line("12a")), None);
    assert_eq!(parse_u32(&line("-3")), None);
}

#[test]
fn parse_command_resolves_the_dictionary() {
    assert_eq!(parse_command(&line("q")), Command::Quit);
    assert_eq!(parse_command(&line("q!")), Command::ForceQuit);
    assert_eq!(parse_command(&line("w")), Command::Write);
    assert_eq!(parse_command(&line("w!")), Command::ForceWrite);
    assert_eq!(parse_command(&line("wq")), Command::WriteAndQuit);
    assert_eq!(parse_command(&line("wq!")), Command::ForceWriteAndQuit);
    assert_eq!(parse_command(&line("7")), Command::GotoLine);
    assert_eq!(parse_command(&line("nonsense")), Command::GotoLine);
}

#[test]
fn goto_line_clamps_to_the_buffer() {
    let mut ed = editor_with(&["a", "b", "c"]);
    ed.command = line("5");
    Command::GotoLine.execute(&mut ed, false);
    assert_eq!(ed.cursor.y, 2);
    ed.command = line("1");
    Command::GotoLine.execute(&mut ed, false);
    assert_eq!(ed.cursor.y, 0);
}

#[test]
fn goto_line_ignores_non_numbers() {
    let mut ed = editor_with(&["a", "b"]);
    ed.cursor.y = 1;
    ed.command = line("zz");
    ed.goto_line();
    assert_eq!(ed.cursor.y, 1);
}

#[test]
fn quit_on_dirty_buffer_asks_for_confirmation() {
    let mut ed = editor_with(&["a"]);
    ed.filename = Some(String::from("f.txt"));
    let disk = line("b");
    let dirty = ed.is_dirty(Some(&disk));
    assert!(dirty);
    let to_write = Command::Quit.execute(&mut ed, dirty);
    assert!(to_write.is_none());
    assert!(matches!(ed.current_screen, CurrentScreen::Exiting));
    assert!(ed.running);
}

#[test]
fn force_quit_stops_regardless() {
    let mut ed = editor_with(&["a"]);
    ed.filename = Some(String::from("f.txt"));
    Command::ForceQuit.execute(&mut ed, true);
    assert!(!ed.running);
}

#[test]
fn quit_on_clean_buffer_stops() {
    let mut ed = editor_with(&["a"]);
    ed.filename = Some(String::from("f.txt"));
    let disk = line("a");
    let dirty = ed.is_dirty(Some(&disk));
    assert!(!dirty);
    Command::Quit.execute(&mut ed, dirty);
    assert!(!ed.running);
}

#[test]
fn unbound_buffer_is_never_dirty() {
    let ed = editor_with(&["anything"]);
    assert!(!ed.is_dirty(None));
}

#[test]
fn write_without_filename_sets_the_status() {
    let mut ed = editor_with(&["a"]);
    let to_write = Command::Write.execute(&mut ed, false);
    assert!(to_write.is_none());
    assert_eq!(ed.status_message, StatusMessage::FilenameNotSet);
}

#[test]
fn write_hands_out_the_joined_buffer() {
    let mut ed = editor_with(&["a", "b"]);
    ed.filename = Some(String::from("f.txt"));
    let to_write = Command::Write.execute(&mut ed, false);
    assert_eq!(to_write, Some(line("a\nb")));
    Command::Write.after_write(&mut ed, true);
    assert_eq!(ed.status_message, StatusMessage::FileWritten);
    assert!(ed.running);
}

#[test]
fn write_and_quit_stops_after_a_successful_write() {
    let mut ed = editor_with(&["a"]);
    ed.filename = Some(String::from("f.txt"));
    let to_write = Command::WriteAndQuit.execute(&mut ed, true);
    assert_eq!(to_write, Some(line("a")));
    Command::WriteAndQuit.after_write(&mut ed, true);
    assert!(!ed.running);
}

#[test]
fn write_and_quit_short_circuits_without_filename() {
    let mut ed = editor_with(&["a"]);
    let to_write = Command::WriteAndQuit.execute(&mut ed, true);
    assert!(to_write.is_none());
    assert_eq!(ed.status_message, StatusMessage::FilenameNotSet);
    assert!(ed.running);
    assert!(matches!(ed.current_screen, CurrentScreen::Editing));
}

#[test]
fn search_cycle_wraps_over_the_matches() {
    let mut ed = editor_with(&["foo", "bar", "baz"]);
    ed.search.query = line("ba");
    ed.execute_current_search();
    assert_eq!((ed.cursor.x, ed.cursor.y), (0, 1));
    assert_eq!(ed.status_message, StatusMessage::SearchCount { current: 1, total: 2 });
    ed.search_next();
    assert_eq!((ed.cursor.x, ed.cursor.y), (0, 2));
    assert_eq!(ed.status_message, StatusMessage::SearchCount { current: 2, total: 2 });
    ed.search_next();
    assert_eq!((ed.cursor.x, ed.cursor.y), (0, 1));
    ed.search_prev();
    assert_eq!((ed.cursor.x, ed.cursor.y), (0, 2));
}

#[test]
fn search_records_first_occurrence_per_line() {
    let mut ed = editor_with(&["xbaba", "none here"]);
    ed.search.query = line("ba");
    ed.search.search(&ed.lines.clone());
    assert_eq!(ed.search.results.len(), 1);
    assert_eq!(ed.search.results[0].row, 0);
    assert_eq!(ed.search.results[0].start, 1);
    assert_eq!(ed.search.results[0].end, 3);
    assert_eq!(ed.search.results[0].line, line("xbaba"));
}

#[test]
fn search_miss_reports_pattern_not_found() {
    let mut ed = editor_with(&["aaa"]);
    ed.search.query = line("zz");
    ed.cursor = Cursor { x: 1, y: 0 };
    ed.execute_current_search();
    assert_eq!(ed.status_message, StatusMessage::PatternNotFound);
    assert_eq!((ed.cursor.x, ed.cursor.y), (1, 0));
}

#[test]
fn empty_query_matches_every_line_at_column_zero() {
    let mut ed = editor_with(&["a", "b"]);
    ed.search.search(&vec![line("a"), line("b")]);
    assert_eq!(ed.search.results.len(), 2);
    assert_eq!(ed.search.results[0].start, 0);
    assert_eq!(ed.search.results[0].end, 0);
}

#[test]
fn search_next_off_a_match_row_is_a_noop() {
    let mut ed = editor_with(&["foo", "bar"]);
    ed.search.query = line("bar");
    ed.execute_current_search();
    ed.cursor = Cursor { x: 0, y: 0 };
    ed.search_next();
    assert_eq!((ed.cursor.x, ed.cursor.y), (0, 0));
}

#[test]
fn mode_machine_enters_and_leaves_insert() {
    let mut ed = editor_with(&["ab"]);
    ed.enter_insert_after();
    assert!(matches!(ed.mode, EditMode::Insert));
    assert_eq!(ed.cursor.x, 1);
    ed.exit_insert();
    assert!(matches!(ed.mode, EditMode::Normal));
    assert_eq!(ed.cursor.x, 0);
    ed.enter_insert_line_end();
    assert_eq!(ed.cursor.x, 2);
    ed.exit_insert();
    ed.enter_insert_line_start();
    assert_eq!(ed.cursor.x, 0);
}

#[test]
fn command_line_editing_mirrors_buffer_editing() {
    let mut ed = Editor::new();
    ed.enter_command();
    ed.insert_char_in_command('w');
    ed.insert_char_in_command('q');
    assert_eq!(ed.command, line("wq"));
    assert_eq!(ed.command_x, 2);
    ed.backspace_in_command();
    assert_eq!(ed.command, line("w"));
    ed.backspace_in_command();
    assert_eq!(ed.command, line(""));
    // Backspace at column 0 cancels back to Normal mode.
    ed.backspace_in_command();
    assert!(matches!(ed.mode, EditMode::Normal));
}

#[test]
fn finish_command_records_history_and_resets() {
    let mut ed = Editor::new();
    ed.enter_command();
    ed.insert_char_in_command('w');
    ed.finish_command();
    assert!(matches!(ed.mode, EditMode::Normal));
    assert_eq!(ed.command, line(""));
    assert_eq!(ed.command_x, 0);
    assert_eq!(ed.command_history, vec![line("w")]);
}

#[test]
fn history_cap_evicts_the_newest_entry() {
    let mut ed = Editor::new();
    for i in 0..100 {
        ed.enter_command();
        ed.insert_char_in_command(if i % 2 == 0 { 'a' } else { 'b' });
        ed.finish_command();
    }
    assert_eq!(ed.command_history.len(), 100);
    ed.enter_command();
    ed.insert_char_in_command('z');
    ed.finish_command();
    assert_eq!(ed.command_history.len(), 100);
    assert_eq!(ed.command_history[99], line("z"));
    assert_eq!(ed.command_history[98], line("a"));
}

#[test]
fn keys_type_text_in_insert_mode() {
    let mut ed = Editor::new();
    assert_eq!(ed.handle_key(Key::Char('i')), None);
    for c in "hi".chars() {
        ed.handle_key(Key::Char(c));
    }
    ed.handle_key(Key::Enter);
    ed.handle_key(Key::Char('o'));
    ed.handle_key(Key::Esc);
    assert_eq!(ed.lines, vec![line("hi"), line("o")]);
    assert!(matches!(ed.mode, EditMode::Normal));
}

#[test]
fn keys_resolve_an_ex_command() {
    let mut ed = editor_with(&["a"]);
    ed.filename = Some(String::from("f.txt"));
    ed.handle_key(Key::Char(':'));
    assert!(matches!(ed.mode, EditMode::Command));
    ed.handle_key(Key::Char('w'));
    ed.handle_key(Key::Char('q'));
    let cmd = ed.handle_key(Key::Enter);
    assert_eq!(cmd, Some(Command::WriteAndQuit));
    let to_write = cmd.unwrap().execute(&mut ed, false);
    assert_eq!(to_write, Some(line("a")));
    cmd.unwrap().after_write(&mut ed, true);
    ed.finish_command();
    assert!(!ed.running);
    assert!(matches!(ed.mode, EditMode::Normal));
    assert_eq!(ed.command_history, vec![line("wq")]);
}

#[test]
fn keys_drive_a_search() {
    let mut ed = editor_with(&["foo", "bar", "baz"]);
    ed.handle_key(Key::Char('/'));
    assert!(matches!(ed.mode, EditMode::Search));
    ed.handle_key(Key::Char('b'));
    ed.handle_key(Key::Char('a'));
    assert_eq!(ed.search.query, line("ba"));
    ed.handle_key(Key::Enter);
    assert!(matches!(ed.mode, EditMode::Normal));
    assert_eq!((ed.cursor.x, ed.cursor.y), (0, 1));
    ed.handle_key(Key::Char('n'));
    assert_eq!((ed.cursor.x, ed.cursor.y), (0, 2));
    ed.handle_key(Key::Char('N'));
    assert_eq!((ed.cursor.x, ed.cursor.y), (0, 1));
}

#[test]
fn confirm_exit_screen_gates_the_quit() {
    let mut ed = editor_with(&["a"]);
    ed.current_screen = CurrentScreen::Exiting;
    ed.handle_key(Key::Char('n'));
    assert!(matches!(ed.current_screen, CurrentScreen::Editing));
    assert!(ed.running);
    ed.current_screen = CurrentScreen::Exiting;
    ed.handle_key(Key::Char('y'));
    assert!(!ed.running);
}

#[test]
fn scrolling_clamps_to_the_buffer() {
    let mut ed = editor_with(&["a", "b", "c", "d"]);
    ed.scroll_down(10);
    assert_eq!(ed.cursor.y, 3);
    assert_eq!(ed.scroll.0, 3);
    ed.scroll_up(1);
    assert_eq!(ed.cursor.y, 2);
    assert_eq!(ed.scroll.0, 2);
    ed.scroll_up(50);
    assert_eq!(ed.cursor.y, 0);
    assert_eq!(ed.scroll.0, 0);
}

#[test]
fn medium_scroll_jumps_nineteen_rows() {
    let lines: Vec<String> = (0..40).map(|i| i.to_string()).collect();
    let refs: Vec<&str> = lines.iter().map(|s| s.as_str()).collect();
    let mut ed = editor_with(&refs);
    ed.med_scroll_down();
    assert_eq!(ed.cursor.y, 19);
    ed.med_scroll_up();
    assert_eq!(ed.cursor.y, 0);
}

#[test]
fn adjust_scroll_keeps_the_cursor_in_the_window() {
    let mut ed = editor_with(&["a"; 50]);
    ed.cursor.y = 30;
    ed.adjust_scroll(10);
    assert_eq!(ed.scroll.0, 21);
    ed.cursor.y = 5;
    ed.adjust_scroll(10);
    assert_eq!(ed.scroll.0, 5);
    ed.cursor.y = 7;
    ed.adjust_scroll(10);
    assert_eq!(ed.scroll.0, 5);
}

#[test]
fn colors_build_as_documented() {
    assert_eq!(Color::black(), Color::from_rgb(0, 0, 0));
    assert_eq!(Color::white(), Color::from_rgb(255, 255, 255));
    assert_eq!(Color::from_rgb(1, 2, 3), Color::from_rgba(1, 2, 3, 255));
    let c = Color::from_rgb(9, 9, 9);
    assert!(!c.reset);
    assert!(c.reset().reset);
    assert_eq!(Color::default(), Color::from_rgba(0, 0, 0, 0));
}

#[test]
fn defaults_match_the_documented_configuration() {
    let s = Settings::default();
    assert!(s.line_numbers);
    assert!(s.syntax);
    assert_eq!(s.color_column, None);
    assert!(matches!(s.tab_type, TabType::Spaces(4)));
    let t = Theme::default();
    assert!(t.bg.reset);
    assert_eq!(t.fg, Color::white());
    assert_eq!(t.statusline_bg, Color::white());
    assert_eq!(t.statusline_fg, Color::black());
    assert_eq!(t.color_column, Color::from_rgb(30, 30, 30));
    assert!(Config::default().line_numbers);
}

#[test]
fn executable_bits_are_detected() {
    assert!(is_executable(0o755));
    assert!(is_executable(0o100));
    assert!(!is_executable(0o644));
    assert!(!is_executable(0));
}

#[test]
fn new_editor_starts_with_one_empty_line() {
    let ed = Editor::new();
    assert_eq!(ed.lines, vec![line("")]);
    assert!(ed.running);
    assert!(matches!(ed.mode, EditMode::Normal));
    assert!(ed.filename.is_none());
}
