//! Buffer, cursor and motion behaviour.

use pe::cursor::Cursor;
use pe::editor::{CursorMove, EditMode, Editor};
use pe::text::{chars_eq, join_content, split_content};
use pe::word::{find_word_end_forward, find_word_start_backward, find_word_start_forward};

fn line(s: &str) -> Vec<char> {
    s.chars().collect()
}

fn editor_with(lines: &[&str]) -> Editor {
    let mut ed = Editor::new();
    ed.lines = lines.iter().map(|s| line(s)).collect();
    ed
}

fn text_of(ed: &Editor) -> Vec<String> {
    ed.lines.iter().map(|l| l.iter().collect()).collect()
}

#[test]
fn split_join_round_trip() {
    for content in ["", "a", "a\nb", "a\nb\nc\n", "\n\n", "one line"] {
        let cv = line(content);
        let lines = split_content(&cv);
        let joined = join_content(&lines);
        assert!(chars_eq(&joined, &cv));
    }
}

#[test]
fn split_content_shapes() {
    assert_eq!(split_content(&line("")).len(), 1);
    assert_eq!(split_content(&line("a\nb")).len(), 2);
    assert_eq!(split_content(&line("a\n")).len(), 2);
    let parts = split_content(&line("ab\ncd"));
    assert_eq!(parts[0], line("ab"));
    assert_eq!(parts[1], line("cd"));
}

#[test]
fn open_then_save_reproduces_content() {
    let content = line("alpha\nbeta\n\ngamma");
    let mut ed = Editor::new();
    ed.open(String::from("f.txt"), content.clone());
    let saved = ed.save().expect("a bound buffer saves");
    assert_eq!(saved, content);
}

#[test]
fn insert_then_backspace_restores_line_and_column() {
    let mut ed = editor_with(&["hello"]);
    ed.mode = EditMode::Insert;
    ed.cursor = Cursor { x: 2, y: 0 };
    ed.insert_char_at_cursor('X');
    assert_eq!(text_of(&ed), ["heXllo"]);
    assert_eq!(ed.cursor.x, 3);
    ed.backspace_at_cursor();
    assert_eq!(text_of(&ed), ["hello"]);
    assert_eq!(ed.cursor.x, 2);
}

#[test]
fn split_then_join_restores_line_and_column() {
    let mut ed = editor_with(&["hello"]);
    ed.mode = EditMode::Insert;
    ed.cursor = Cursor { x: 2, y: 0 };
    ed.newline_at_cursor();
    assert_eq!(text_of(&ed), ["he", "llo"]);
    assert_eq!((ed.cursor.x, ed.cursor.y), (0, 1));
    ed.backspace_at_cursor();
    assert_eq!(text_of(&ed), ["hello"]);
    assert_eq!((ed.cursor.x, ed.cursor.y), (2, 0));
}

#[test]
fn backspace_at_origin_does_nothing() {
    let mut ed = editor_with(&["ab"]);
    ed.mode = EditMode::Insert;
    ed.backspace_at_cursor();
    assert_eq!(text_of(&ed), ["ab"]);
    assert_eq!((ed.cursor.x, ed.cursor.y), (0, 0));
}

#[test]
fn delete_char_steps_left_at_line_end() {
    let mut ed = editor_with(&["abc"]);
    ed.cursor = Cursor { x: 2, y: 0 };
    ed.delete_char_at_cursor();
    assert_eq!(text_of(&ed), ["ab"]);
    assert_eq!(ed.cursor.x, 1);
}

#[test]
fn delete_char_on_empty_line_is_a_noop() {
    let mut ed = editor_with(&[""]);
    ed.delete_char_at_cursor();
    assert_eq!(text_of(&ed), [""]);
    assert_eq!(ed.cursor.x, 0);
}

#[test]
fn delete_sole_line_clears_it() {
    let mut ed = editor_with(&["only"]);
    ed.cursor = Cursor { x: 3, y: 0 };
    ed.delete_line_at_cursor();
    assert_eq!(text_of(&ed), [""]);
    assert_eq!((ed.cursor.x, ed.cursor.y), (0, 0));
}

#[test]
fn delete_last_line_moves_up() {
    let mut ed = editor_with(&["aa", "b"]);
    ed.cursor = Cursor { x: 0, y: 1 };
    ed.delete_line_at_cursor();
    assert_eq!(text_of(&ed), ["aa"]);
    assert_eq!(ed.cursor.y, 0);
}

#[test]
fn delete_middle_line_snaps_to_next_line_end() {
    let mut ed = editor_with(&["aaaa", "b", "cc"]);
    ed.cursor = Cursor { x: 3, y: 0 };
    ed.delete_line_at_cursor();
    assert_eq!(text_of(&ed), ["b", "cc"]);
    // Row 0 is now "b"; column 3 has no character, so it snaps to the
    // last character.
    assert_eq!((ed.cursor.x, ed.cursor.y), (0, 0));
}

#[test]
fn open_line_above_and_below() {
    let mut ed = editor_with(&["mid"]);
    ed.cursor = Cursor { x: 2, y: 0 };
    ed.newline_under_cursor();
    assert_eq!(text_of(&ed), ["mid", ""]);
    assert_eq!((ed.cursor.x, ed.cursor.y), (0, 1));
    ed.newline_above_cursor();
    assert_eq!(text_of(&ed), ["mid", "", ""]);
    assert_eq!((ed.cursor.x, ed.cursor.y), (0, 1));
}

#[test]
fn insert_tab_inserts_spaces_and_advances() {
    let mut ed = editor_with(&["ab"]);
    ed.mode = EditMode::Insert;
    ed.cursor = Cursor { x: 1, y: 0 };
    ed.insert_tab();
    assert_eq!(text_of(&ed), ["a    b"]);
    assert_eq!(ed.cursor.x, 5);
}

#[test]
fn insert_tab_honours_tab_characters() {
    let mut ed = editor_with(&[""]);
    ed.mode = EditMode::Insert;
    ed.settings.tab_type = pe::config::settings::TabType::Tabs(2);
    ed.insert_tab();
    assert_eq!(text_of(&ed), ["\t\t"]);
    assert_eq!(ed.cursor.x, 2);
}

#[test]
fn right_motion_stops_on_last_character_in_normal_mode() {
    let mut ed = editor_with(&["ab"]);
    ed.move_cursor(CursorMove::Right);
    assert_eq!(ed.cursor.x, 1);
    ed.move_cursor(CursorMove::Right);
    assert_eq!(ed.cursor.x, 1);
}

#[test]
fn right_motion_reaches_past_end_in_insert_mode() {
    let mut ed = editor_with(&["ab"]);
    ed.mode = EditMode::Insert;
    ed.cursor.x = 1;
    ed.move_cursor(CursorMove::Right);
    assert_eq!(ed.cursor.x, 2);
    ed.move_cursor(CursorMove::Right);
    assert_eq!(ed.cursor.x, 2);
}

#[test]
fn vertical_motion_snaps_to_shorter_line() {
    let mut ed = editor_with(&["long line", "ab"]);
    ed.cursor = Cursor { x: 7, y: 0 };
    ed.move_cursor(CursorMove::Down);
    // Normal mode rests on the last character of "ab".
    assert_eq!((ed.cursor.x, ed.cursor.y), (1, 1));
    ed.move_cursor(CursorMove::Up);
    assert_eq!((ed.cursor.x, ed.cursor.y), (1, 0));
}

#[test]
fn down_at_last_row_does_nothing() {
    let mut ed = editor_with(&["a"]);
    ed.move_cursor(CursorMove::Down);
    assert_eq!(ed.cursor.y, 0);
}

#[test]
fn line_begin_end_start_end_motions() {
    let mut ed = editor_with(&["abc", "defg"]);
    ed.cursor = Cursor { x: 1, y: 0 };
    ed.move_cursor(CursorMove::LineEnd);
    assert_eq!(ed.cursor.x, 2);
    ed.move_cursor(CursorMove::LineBegin);
    assert_eq!(ed.cursor.x, 0);
    ed.move_cursor(CursorMove::End);
    assert_eq!((ed.cursor.x, ed.cursor.y), (3, 1));
    ed.move_cursor(CursorMove::Start);
    assert_eq!((ed.cursor.x, ed.cursor.y), (0, 0));
}

#[test]
fn word_start_forward_lands_on_next_word() {
    let mut ed = editor_with(&["foo bar"]);
    ed.move_cursor(CursorMove::WordStartForward);
    assert_eq!(ed.cursor.x, 4);
}

#[test]
fn word_motion_primitives() {
    let l = line("foo bar");
    assert_eq!(find_word_start_forward(&l, 0), Some(4));
    assert_eq!(find_word_start_forward(&l, 4), None);
    assert_eq!(find_word_start_backward(&l, 4), Some(0));
    assert_eq!(find_word_start_backward(&l, 6), Some(4));
    assert_eq!(find_word_start_backward(&l, 0), None);
    assert_eq!(find_word_end_forward(&l, 0), Some(2));
    assert_eq!(find_word_end_forward(&l, 2), Some(6));
    assert_eq!(find_word_end_forward(&l, 6), None);
    let blank = line("   ");
    assert_eq!(find_word_start_forward(&blank, 0), None);
    assert_eq!(find_word_start_backward(&blank, 2), None);
}

#[test]
fn cursor_stays_inside_buffer_through_edits() {
    let mut ed = editor_with(&["one", "two"]);
    ed.mode = EditMode::Insert;
    ed.cursor = Cursor { x: 3, y: 0 };
    ed.newline_at_cursor();
    ed.backspace_at_cursor();
    ed.mode = EditMode::Normal;
    ed.delete_line_at_cursor();
    ed.delete_line_at_cursor();
    ed.delete_line_at_cursor();
    assert!(ed.lines.len() >= 1);
    assert!(ed.cursor.y < ed.lines.len());
}

#[test]
fn cursor_from_pair() {
    let c = Cursor::from((3, 4));
    assert_eq!((c.x, c.y), (3, 4));
}
