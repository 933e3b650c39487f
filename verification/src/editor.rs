//! The editor core: the line buffer, the cursor and its motions, the
//! modal state machine, search navigation and the persistence gate.
//!
//! Every reachable state keeps the buffer invariant: the buffer holds
//! at least one line and the cursor's row addresses one of them.

use vstd::prelude::*;

use crate::command::{command_of, parse_command, parse_u32, Command};
use crate::config::settings::{Settings, TabType};
use crate::cursor::Cursor;
use crate::search::{results_ok, Search};
use crate::text::{chars_eq, join_content, join_lines, lines_view, split_content, split_lines};
use crate::word::{
    find_word_end_forward, find_word_start_backward, find_word_start_forward, word_end_forward,
    word_start_backward, word_start_forward,
};

verus! {

/// Rows a medium scroll jumps over.
pub const MEDIUM_SCROLL: usize = 19;

/// Cap on the command history length.
pub const COMMAND_HISTORY_MAX: usize = 100;

/// One cursor motion.
#[derive(Clone, Copy, PartialEq, Eq, Structural, Debug)]
pub enum CursorMove {
    Up,
    Down,
    Left,
    Right,
    LineBegin,
    LineEnd,
    WordStartForward,
    WordStartBackward,
    WordEndForward,
    Start,
    End,
}

/// The screen gate: editing, or asking whether to discard changes.
#[derive(Clone, Copy, PartialEq, Eq, Structural, Debug)]
pub enum CurrentScreen {
    Editing,
    Exiting,
}

/// The active input interpretation context.
#[derive(Clone, Copy, PartialEq, Eq, Structural, Debug)]
pub enum EditMode {
    Normal,
    Insert,
    Command,
    Search,
}

/// What the status line reports; the renderer turns it into text.
#[derive(Clone, Copy, PartialEq, Eq, Structural, Debug)]
pub enum StatusMessage {
    NoMessage,
    /// A search found nothing.
    PatternNotFound,
    /// A write was asked for while no file path is bound.
    FilenameNotSet,
    /// The buffer was written to its bound path.
    FileWritten,
    /// The cursor sits on search match `current` of `total`, 1-based.
    SearchCount { current: usize, total: usize },
}

/// One raw key, as the terminal layer hands it to the state machine.
#[derive(Clone, Copy, PartialEq, Eq, Structural, Debug)]
pub enum Key {
    Char(char),
    Up,
    Down,
    Left,
    Right,
    Enter,
    Backspace,
    Tab,
    Esc,
}

/// The whole editor state.
pub struct Editor {
    /// The document, one entry per line; never empty.
    pub lines: Vec<Vec<char>>,
    pub cursor: Cursor,
    pub filename: Option<String>,
    /// Rows and columns scrolled out of view at the top and left.
    pub scroll: (u16, u16),
    pub search: Search,
    pub status_message: StatusMessage,
    pub running: bool,
    pub current_screen: CurrentScreen,
    pub mode: EditMode,
    /// The command line being typed while in Command mode.
    pub command: Vec<char>,
    /// The cursor column inside the command line or the search query.
    pub command_x: usize,
    /// Executed command strings, oldest first, capped.
    pub command_history: Vec<Vec<char>>,
    /// Recall position for walking the history.
    pub command_history_idx: usize,
    pub settings: Settings,
}

impl Editor {
    /// The buffer as a sequence of character sequences.
    pub open spec fn buffer(self) -> Seq<Seq<char>> {
        lines_view(self.lines@)
    }

    pub open spec fn line_len(self, y: int) -> int {
        self.buffer()[y].len() as int
    }

    /// The line under the cursor.
    pub open spec fn cur_line(self) -> Seq<char> {
        self.buffer()[self.cursor.y as int]
    }

    /// A character exists at column `x` of row `y`.
    pub open spec fn has_char(self, x: int, y: int) -> bool {
        0 <= y < self.buffer().len() && 0 <= x < self.line_len(y)
    }

    /// The column `LineEnd` resolves to on row `y`: one past the last
    /// character while inserting, on the last character otherwise.
    pub open spec fn line_end_col(self, y: int) -> int {
        if self.mode is Insert {
            self.line_len(y)
        } else if self.line_len(y) == 0 {
            0
        } else {
            self.line_len(y) - 1
        }
    }

    /// Horizontal motion commits a column only when a character exists
    /// there or, while inserting, when it is one past the line's end.
    pub open spec fn commit_col(self, x: int, y: int) -> bool {
        self.has_char(x, y) || (self.mode is Insert && x == self.line_len(y))
    }

    /// The buffer invariant: at least one line, the cursor on one of
    /// them, its column within the mode's bound for that line.
    pub open spec fn buffer_wf(self) -> bool {
        &&& self.buffer().len() >= 1
        &&& (self.cursor.y as int) < self.buffer().len()
        &&& (self.cursor.x as int) <= self.line_end_col(self.cursor.y as int)
    }

    /// The command-line cursor stays within the buffer it edits.
    pub open spec fn cmdline_wf(self) -> bool {
        &&& (self.mode is Command ==> self.command_x <= self.command@.len())
        &&& (self.mode is Search ==> self.command_x <= self.search.query@.len())
    }

    /// Well-formedness of the whole editor state.
    pub open spec fn wf(self) -> bool {
        self.buffer_wf() && self.cmdline_wf()
    }

    /// A fresh editor: one empty line, Normal mode, running.
    pub fn new() -> (e: Editor)
        ensures
            e.wf(),
            e.buffer() =~~= seq![Seq::<char>::empty()],
            e.cursor == (Cursor { x: 0, y: 0 }),
            e.filename is None,
            e.scroll == (0u16, 0u16),
            e.search.query@ =~= Seq::<char>::empty(),
            e.search.results@.len() == 0,
            e.status_message is NoMessage,
            e.running,
            e.current_screen is Editing,
            e.mode is Normal,
            e.command@ =~= Seq::<char>::empty(),
            e.command_x == 0,
            e.command_history@.len() == 0,
            e.command_history_idx == 0,
            e.settings == Settings::default_spec(),
    {
        let mut lines: Vec<Vec<char>> = Vec::new();
        lines.push(Vec::new());
        Editor {
            lines,
            cursor: Cursor { x: 0, y: 0 },
            filename: None,
            scroll: (0, 0),
            search: Search { query: Vec::new(), results: Vec::new() },
            status_message: StatusMessage::NoMessage,
            running: true,
            current_screen: CurrentScreen::Editing,
            mode: EditMode::Normal,
            command: Vec::new(),
            command_x: 0,
            command_history: Vec::new(),
            command_history_idx: 0,
            settings: Settings::default(),
        }
    }

    /// The character at `(column, row)`, when both coordinates address
    /// one.
    pub fn char_at(&self, coords: (usize, usize)) -> (r: Option<char>)
        ensures
            (r is Some) == self.has_char(coords.0 as int, coords.1 as int),
            r matches Some(c) ==> c == self.buffer()[coords.1 as int][coords.0 as int],
    {
        if coords.1 < self.lines.len() {
            let line = &self.lines[coords.1];
            if coords.0 < line.len() {
                Some(line[coords.0])
            } else {
                None
            }
        } else {
            None
        }
    }

    /// Moves the cursor column to `LineEnd` of its row.
    fn snap_line_end(&mut self)
        requires
            (old(self).cursor.y as int) < old(self).buffer().len(),
        ensures
            *final(self) == (Editor {
                cursor: Cursor {
                    x: old(self).line_end_col(old(self).cursor.y as int) as usize,
                    y: old(self).cursor.y,
                },
                ..*old(self)
            }),
    {
        let y = self.cursor.y;
        let n = self.lines[y].len();
        let e = if self.mode == EditMode::Insert {
            n
        } else if n == 0 {
            0
        } else {
            n - 1
        };
        self.cursor.x = e;
    }

    /// Moves the cursor to row `ny`, keeping its column when a
    /// character is there and snapping to `LineEnd` otherwise.
    fn clamp_into_row(&mut self, ny: usize)
        requires
            (ny as int) < old(self).buffer().len(),
        ensures
            *final(self) == (Editor {
                cursor: Cursor {
                    x: if old(self).has_char(old(self).cursor.x as int, ny as int) {
                        old(self).cursor.x
                    } else {
                        old(self).line_end_col(ny as int) as usize
                    },
                    y: ny,
                },
                ..*old(self)
            }),
    {
        let keep = match self.char_at((self.cursor.x, ny)) {
            Some(_) => true,
            None => false,
        };
        self.cursor.y = ny;
        if !keep {
            self.snap_line_end();
        }
    }

    /// Only the buffer and the cursor may differ between `self` and
    /// `post`; every other field is carried over unchanged.
    pub open spec fn with_buffer_cursor(self, post: Editor) -> bool {
        post == (Editor { lines: post.lines, cursor: post.cursor, ..self })
    }

    /// Where one motion takes the cursor from the current state.
    pub open spec fn moved_cursor(self, mv: CursorMove) -> Cursor {
        let x = self.cursor.x as int;
        let y = self.cursor.y as int;
        match mv {
            CursorMove::Up => {
                let ny = if y <= 0 {
                    0
                } else {
                    y - 1
                };
                if self.has_char(x, ny) {
                    Cursor { x: self.cursor.x, y: ny as usize }
                } else {
                    Cursor { x: self.line_end_col(ny) as usize, y: ny as usize }
                }
            }
            CursorMove::Down => {
                let ny = y + 1;
                if ny < self.buffer().len() {
                    if self.has_char(x, ny) {
                        Cursor { x: self.cursor.x, y: ny as usize }
                    } else {
                        Cursor { x: self.line_end_col(ny) as usize, y: ny as usize }
                    }
                } else {
                    self.cursor
                }
            }
            CursorMove::Left => {
                let nx = if x <= 0 {
                    0
                } else {
                    x - 1
                };
                if self.commit_col(nx, y) {
                    Cursor { x: nx as usize, y: self.cursor.y }
                } else {
                    self.cursor
                }
            }
            CursorMove::Right => {
                let nx = x + 1;
                if self.commit_col(nx, y) {
                    Cursor { x: nx as usize, y: self.cursor.y }
                } else {
                    self.cursor
                }
            }
            CursorMove::LineBegin => Cursor { x: 0, y: self.cursor.y },
            CursorMove::LineEnd => Cursor { x: self.line_end_col(y) as usize, y: self.cursor.y },
            CursorMove::WordStartForward => match word_start_forward(self.cur_line(), x) {
                Some(i) => Cursor { x: i as usize, y: self.cursor.y },
                None => self.cursor,
            },
            CursorMove::WordStartBackward => match word_start_backward(self.cur_line(), x) {
                Some(i) => Cursor { x: i as usize, y: self.cursor.y },
                None => self.cursor,
            },
            CursorMove::WordEndForward => match word_end_forward(self.cur_line(), x) {
                Some(i) => Cursor { x: i as usize, y: self.cursor.y },
                None => self.cursor,
            },
            CursorMove::Start => Cursor { x: 0, y: 0 },
            CursorMove::End => {
                let ny = self.buffer().len() - 1;
                Cursor { x: self.line_end_col(ny) as usize, y: ny as usize }
            }
        }
    }

    /// Applies one motion to the cursor; vertical motion snaps the
    /// column to `LineEnd` when the destination row has no character
    /// under it, as an explicit second step.
    pub fn move_cursor(&mut self, cursor_move: CursorMove)
        requires
            old(self).wf(),
        ensures
            final(self).wf(),
            *final(self) == (Editor { cursor: old(self).moved_cursor(cursor_move), ..*old(self) }),
    {
        match cursor_move {
            CursorMove::Up => {
                let ny = if self.cursor.y == 0 {
                    0
                } else {
                    self.cursor.y - 1
                };
                self.clamp_into_row(ny);
            }
            CursorMove::Down => {
                let len = self.lines.len();
                if self.cursor.y + 1 < len {
                    let ny = self.cursor.y + 1;
                    self.clamp_into_row(ny);
                }
            }
            CursorMove::Left => {
                let y = self.cursor.y;
                let n = self.lines[y].len();
                let nx = if self.cursor.x == 0 {
                    0
                } else {
                    self.cursor.x - 1
                };
                let commit = nx < n || (self.mode == EditMode::Insert && nx == n);
                if commit {
                    self.cursor.x = nx;
                }
            }
            CursorMove::Right => {
                let y = self.cursor.y;
                let n = self.lines[y].len();
                if self.cursor.x < n {
                    let nx = self.cursor.x + 1;
                    let commit = nx < n || self.mode == EditMode::Insert;
                    if commit {
                        self.cursor.x = nx;
                    }
                }
            }
            CursorMove::LineBegin => {
                self.cursor.x = 0;
            }
            CursorMove::LineEnd => {
                self.snap_line_end();
            }
            CursorMove::WordStartForward => {
                let y = self.cursor.y;
                let r = find_word_start_forward(&self.lines[y], self.cursor.x);
                match r {
                    Some(i) => {
                        self.cursor.x = i;
                    }
                    None => {}
                }
            }
            CursorMove::WordStartBackward => {
                let y = self.cursor.y;
                let r = find_word_start_backward(&self.lines[y], self.cursor.x);
                match r {
                    Some(i) => {
                        self.cursor.x = i;
                    }
                    None => {}
                }
            }
            CursorMove::WordEndForward => {
                let y = self.cursor.y;
                let r = find_word_end_forward(&self.lines[y], self.cursor.x);
                match r {
                    Some(i) => {
                        self.cursor.x = i;
                    }
                    None => {}
                }
            }
            CursorMove::Start => {
                self.cursor = Cursor { x: 0, y: 0 };
            }
            CursorMove::End => {
                let ny = self.lines.len() - 1;
                self.cursor.y = ny;
                self.snap_line_end();
            }
        }
    }

    /// What inserting one character at the cursor does: the character
    /// enters the line at the cursor column and the cursor steps right
    /// when the new column is reachable in the current mode.
    pub open spec fn insert_char_post(self, post: Editor, c: char) -> bool {
        let x = self.cursor.x as int;
        let y = self.cursor.y as int;
        &&& self.with_buffer_cursor(post)
        &&& post.buffer() == self.buffer().update(y, self.cur_line().insert(x, c))
        &&& post.cursor.y == self.cursor.y
        &&& post.cursor.x as int == if x < self.line_len(y) || self.mode is Insert {
            x + 1
        } else {
            x
        }
    }

    /// Inserts one character at the cursor and steps the cursor right.
    pub fn insert_char_at_cursor(&mut self, c: char)
        requires
            old(self).wf(),
        ensures
            final(self).wf(),
            old(self).insert_char_post(*final(self), c),
    {
        let y = self.cursor.y;
        let x = self.cursor.x;
        let n = self.lines[y].len();
        if x == n {
            self.lines[y].push(c);
            proof {
                assert(old(self).cur_line().insert(x as int, c) =~= old(self).cur_line().push(c));
            }
        } else {
            self.lines[y].insert(x, c);
        }
        let m = self.lines[y].len();
        proof {
            assert(lines_view(self.lines@) =~~= old(self).buffer().update(
                y as int,
                old(self).cur_line().insert(x as int, c),
            ));
        }
        if x < n || self.mode == EditMode::Insert {
            self.cursor.x = x + 1;
        }
    }

    /// What backspacing at the cursor does: at column 0 of row 0,
    /// nothing; at column 0 elsewhere, the row joins the previous one
    /// and the cursor lands on the join point; elsewhere the character
    /// left of the cursor leaves and the cursor steps left.
    pub open spec fn backspace_post(self, post: Editor) -> bool {
        let x = self.cursor.x as int;
        let y = self.cursor.y as int;
        if x == 0 && y == 0 {
            post == self
        } else if x == 0 {
            &&& self.with_buffer_cursor(post)
            &&& post.buffer() == self.buffer().update(
                y - 1,
                self.buffer()[y - 1] + self.buffer()[y],
            ).remove(y)
            &&& post.cursor.y as int == y - 1
            &&& post.cursor.x as int == self.line_len(y - 1)
        } else {
            &&& self.with_buffer_cursor(post)
            &&& post.buffer() == self.buffer().update(y, self.cur_line().remove(x - 1))
            &&& post.cursor == (Cursor { x: (x - 1) as usize, y: self.cursor.y })
        }
    }

    /// Backspaces at the cursor: removes the character to its left, or
    /// joins the row with the previous one when at column 0.
    pub fn backspace_at_cursor(&mut self)
        requires
            old(self).wf(),
            old(self).mode is Insert,
        ensures
            final(self).wf(),
            old(self).backspace_post(*final(self)),
    {
        let x = self.cursor.x;
        let y = self.cursor.y;
        if x == 0 {
            if y == 0 {
                return ;
            }
            let mut line = self.lines.remove(y);
            let join_idx = self.lines[y - 1].len();
            self.lines[y - 1].append(&mut line);
            self.cursor = Cursor { x: join_idx, y: y - 1 };
            proof {
                assert(lines_view(self.lines@) =~~= old(self).buffer().update(
                    y - 1,
                    old(self).buffer()[y - 1] + old(self).buffer()[y as int],
                ).remove(y as int));
            }
            return ;
        }
        self.lines[y].remove(x - 1);
        self.cursor.x = x - 1;
        proof {
            assert(lines_view(self.lines@) =~~= old(self).buffer().update(
                y as int,
                old(self).cur_line().remove(x - 1),
            ));
        }
    }

    /// What deleting the character under the cursor does: on an empty
    /// line nothing changes; otherwise the character leaves and the
    /// cursor steps left when its column fell off the line's end.
    pub open spec fn delete_char_post(self, post: Editor) -> bool {
        let x = self.cursor.x as int;
        let y = self.cursor.y as int;
        let n = self.line_len(y);
        if n == 0 {
            post == self
        } else {
            &&& self.with_buffer_cursor(post)
            &&& post.buffer() == self.buffer().update(y, self.cur_line().remove(x))
            &&& post.cursor.y == self.cursor.y
            &&& post.cursor.x as int == if x + 1 < n {
                x
            } else if x > 0 {
                x - 1
            } else {
                0
            }
        }
    }

    /// Deletes the character under the cursor, stepping left when the
    /// cursor would otherwise sit past the shortened line.
    pub fn delete_char_at_cursor(&mut self)
        requires
            old(self).wf(),
            (old(self).cursor.x as int) < old(self).cur_line().len() || old(self).cur_line().len()
                == 0,
        ensures
            final(self).wf(),
            old(self).delete_char_post(*final(self)),
    {
        let y = self.cursor.y;
        let x = self.cursor.x;
        let n = self.lines[y].len();
        if n == 0 {
            return ;
        }
        self.lines[y].remove(x);
        proof {
            assert(lines_view(self.lines@) =~~= old(self).buffer().update(
                y as int,
                old(self).cur_line().remove(x as int),
            ));
        }
        if x + 1 < n {
        } else if x > 0 {
            self.cursor.x = x - 1;
        }
    }

    /// What deleting the cursor's line does: the sole remaining line
    /// is cleared in place; deleting the last row moves the cursor up;
    /// otherwise the next row slides into place and the column snaps
    /// to `LineEnd` when it no longer addresses a character.
    pub open spec fn delete_line_post(self, post: Editor) -> bool {
        let x = self.cursor.x as int;
        let y = self.cursor.y as int;
        let len = self.buffer().len() as int;
        if len == 1 {
            &&& self.with_buffer_cursor(post)
            &&& post.buffer() == self.buffer().update(0, Seq::<char>::empty())
            &&& post.cursor == (Cursor { x: 0, y: self.cursor.y })
        } else if y == len - 1 {
            &&& self.with_buffer_cursor(post)
            &&& post.buffer() == self.buffer().remove(y)
            &&& post.cursor.y as int == y - 1
            &&& post.cursor.x as int == if self.has_char(x, y - 1) {
                x
            } else {
                self.line_end_col(y - 1)
            }
        } else {
            &&& self.with_buffer_cursor(post)
            &&& post.buffer() == self.buffer().remove(y)
            &&& post.cursor.y == self.cursor.y
            &&& post.cursor.x as int == if x < self.line_len(y + 1) {
                x
            } else {
                self.line_end_col(y + 1)
            }
        }
    }

    /// Deletes the cursor's line; the buffer never loses its last
    /// line, which is cleared instead.
    pub fn delete_line_at_cursor(&mut self)
        requires
            old(self).wf(),
        ensures
            final(self).wf(),
            old(self).delete_line_post(*final(self)),
    {
        let y = self.cursor.y;
        if self.lines.len() == 1 {
            self.lines[y].clear();
            self.cursor.x = 0;
            proof {
                assert(lines_view(self.lines@) =~~= old(self).buffer().update(
                    0,
                    Seq::<char>::empty(),
                ));
            }
            return ;
        }
        if y == self.lines.len() - 1 {
            self.lines.remove(y);
            proof {
                assert(lines_view(self.lines@) =~~= old(self).buffer().remove(y as int));
            }
            self.clamp_into_row(y - 1);
            return ;
        }
        self.lines.remove(y);
        proof {
            assert(lines_view(self.lines@) =~~= old(self).buffer().remove(y as int));
        }
        self.clamp_into_row(y);
    }

    /// What opening a line above does: an empty line enters at the
    /// cursor row, which then addresses it at column 0.
    pub open spec fn newline_above_post(self, post: Editor) -> bool {
        let y = self.cursor.y as int;
        &&& self.with_buffer_cursor(post)
        &&& post.buffer() == self.buffer().insert(y, Seq::<char>::empty())
        &&& post.cursor == (Cursor { x: 0, y: self.cursor.y })
    }

    /// Opens an empty line above the cursor and moves to its start.
    pub fn newline_above_cursor(&mut self)
        requires
            old(self).wf(),
        ensures
            final(self).wf(),
            old(self).newline_above_post(*final(self)),
    {
        let y = self.cursor.y;
        self.lines.insert(y, Vec::new());
        self.cursor.x = 0;
        proof {
            assert(lines_view(self.lines@) =~~= old(self).buffer().insert(
                y as int,
                Seq::<char>::empty(),
            ));
        }
    }

    /// What opening a line below does: an empty line enters below the
    /// cursor row and the cursor moves to its start.
    pub open spec fn newline_under_post(self, post: Editor) -> bool {
        let y = self.cursor.y as int;
        &&& self.with_buffer_cursor(post)
        &&& post.buffer() == self.buffer().insert(y + 1, Seq::<char>::empty())
        &&& post.cursor == (Cursor { x: 0, y: (y + 1) as usize })
    }

    /// Opens an empty line below the cursor and moves to its start.
    pub fn newline_under_cursor(&mut self)
        requires
            old(self).wf(),
        ensures
            final(self).wf(),
            old(self).newline_under_post(*final(self)),
    {
        // Reading the length bounds the row arithmetic below.
        let _len = self.lines.len();
        let y = self.cursor.y;
        self.lines.insert(y + 1, Vec::new());
        self.cursor = Cursor { x: 0, y: y + 1 };
        proof {
            assert(lines_view(self.lines@) =~~= old(self).buffer().insert(
                y + 1,
                Seq::<char>::empty(),
            ));
        }
    }

    /// What splitting at the cursor does: the text after the cursor
    /// becomes a new line below, and the cursor moves to its start.
    pub open spec fn split_post(self, post: Editor) -> bool {
        let x = self.cursor.x as int;
        let y = self.cursor.y as int;
        &&& self.with_buffer_cursor(post)
        &&& post.buffer() == self.buffer().update(y, self.cur_line().take(x)).insert(
            y + 1,
            self.cur_line().skip(x),
        )
        &&& post.cursor == (Cursor { x: 0, y: (y + 1) as usize })
    }

    /// Splits the cursor's line at the cursor column; the remainder
    /// becomes a new line below and the cursor moves to its start.
    pub fn newline_at_cursor(&mut self)
        requires
            old(self).wf(),
        ensures
            final(self).wf(),
            old(self).split_post(*final(self)),
    {
        // Reading the length bounds the row arithmetic below.
        let _len = self.lines.len();
        let y = self.cursor.y;
        let x = self.cursor.x;
        let tail = self.lines[y].split_off(x);
        self.lines.insert(y + 1, tail);
        self.cursor = Cursor { x: 0, y: y + 1 };
        proof {
            assert(lines_view(self.lines@) =~~= old(self).buffer().update(
                y as int,
                old(self).cur_line().take(x as int),
            ).insert(y + 1, old(self).cur_line().skip(x as int)));
        }
    }

    /// A run of `n` copies of one character.
    pub open spec fn char_run(c: char, n: nat) -> Seq<char> {
        Seq::new(n, |i: int| c)
    }

    /// What inserting a tab does: the configured number of fill
    /// characters enters at the cursor, which advances past them.
    pub open spec fn insert_tab_post(self, post: Editor) -> bool {
        let x = self.cursor.x as int;
        let y = self.cursor.y as int;
        let w = self.settings.tab_type.width() as nat;
        let fill = self.settings.tab_type.fill_char();
        &&& self.with_buffer_cursor(post)
        &&& post.buffer() == self.buffer().update(
            y,
            self.cur_line().take(x) + Editor::char_run(fill, w) + self.cur_line().skip(x),
        )
        &&& post.cursor.y == self.cursor.y
        &&& post.cursor.x as int == x + w
    }

    /// Inserts one tab stop at the cursor: `n` spaces or `n` tab
    /// characters per the settings, advancing the cursor past them.
    pub fn insert_tab(&mut self)
        requires
            old(self).wf(),
            old(self).mode is Insert,
        ensures
            final(self).wf(),
            old(self).insert_tab_post(*final(self)),
    {
        let y = self.cursor.y;
        let x = self.cursor.x;
        let (w, fill) = match self.settings.tab_type {
            TabType::Spaces(n) => (n, ' '),
            TabType::Tabs(n) => (n, '\t'),
        };
        let mut k: usize = 0;
        proof {
            assert(old(self).cur_line().take(x as int) + Editor::char_run(fill, 0)
                + old(self).cur_line().skip(x as int) =~= old(self).cur_line());
        }
        while k < w
            invariant
                k <= w,
                y == self.cursor.y,
                x == self.cursor.x,
                y == old(self).cursor.y,
                x == old(self).cursor.x,
                x <= old(self).cur_line().len(),
                y < self.lines@.len(),
                x <= self.lines@[y as int]@.len(),
                self.lines@[y as int]@.len() == old(self).cur_line().len() + k,
                *self == (Editor { lines: self.lines, ..*old(self) }),
                self.lines@.len() == old(self).lines@.len(),
                forall|i: int|
                    0 <= i < self.lines@.len() && i != y as int ==> self.lines@[i] == old(
                        self,
                    ).lines@[i],
                self.lines@[y as int]@ =~= old(self).cur_line().take(x as int)
                    + Editor::char_run(fill, k as nat) + old(self).cur_line().skip(x as int),
            decreases w - k,
        {
            self.lines[y].insert(x, fill);
            proof {
                assert(self.lines@[y as int]@ =~= old(self).cur_line().take(x as int)
                    + Editor::char_run(fill, (k + 1) as nat) + old(self).cur_line().skip(
                    x as int,
                ));
            }
            k = k + 1;
        }
        let m = self.lines[y].len();
        self.cursor.x = x + w;
        proof {
            assert(lines_view(self.lines@) =~~= old(self).buffer().update(
                y as int,
                old(self).cur_line().take(x as int) + Editor::char_run(
                    fill,
                    old(self).settings.tab_type.width() as nat,
                ) + old(self).cur_line().skip(x as int),
            ));
        }
    }

    /// Enters Insert mode at the cursor position.
    pub fn enter_insert(&mut self)
        requires
            old(self).wf(),
        ensures
            final(self).wf(),
            *final(self) == (Editor { mode: EditMode::Insert, ..*old(self) }),
    {
        self.mode = EditMode::Insert;
    }

    /// Enters Insert mode one column to the right of the cursor, when
    /// that column exists as an insertion point.
    pub fn enter_insert_after(&mut self)
        requires
            old(self).wf(),
        ensures
            final(self).wf(),
            *final(self) == (Editor {
                mode: EditMode::Insert,
                cursor: final(self).cursor,
                ..*old(self)
            }),
            final(self).cursor.y == old(self).cursor.y,
            final(self).cursor.x as int == if (old(self).cursor.x as int) < old(self).line_len(
                old(self).cursor.y as int,
            ) {
                old(self).cursor.x + 1
            } else {
                old(self).cursor.x as int
            },
    {
        self.mode = EditMode::Insert;
        let y = self.cursor.y;
        let n = self.lines[y].len();
        if self.cursor.x < n {
            self.cursor.x = self.cursor.x + 1;
        }
    }

    /// Enters Insert mode at the start of the cursor's line.
    pub fn enter_insert_line_start(&mut self)
        requires
            old(self).wf(),
        ensures
            final(self).wf(),
            *final(self) == (Editor {
                mode: EditMode::Insert,
                cursor: (Cursor { x: 0, y: old(self).cursor.y }),
                ..*old(self)
            }),
    {
        self.cursor.x = 0;
        self.mode = EditMode::Insert;
    }

    /// Enters Insert mode one past the end of the cursor's line.
    pub fn enter_insert_line_end(&mut self)
        requires
            old(self).wf(),
        ensures
            final(self).wf(),
            *final(self) == (Editor {
                mode: EditMode::Insert,
                cursor: final(self).cursor,
                ..*old(self)
            }),
            final(self).cursor.y == old(self).cursor.y,
            final(self).cursor.x as int == old(self).line_len(old(self).cursor.y as int),
    {
        self.mode = EditMode::Insert;
        let y = self.cursor.y;
        let n = self.lines[y].len();
        self.cursor.x = n;
    }

    /// Leaves Insert mode; the cursor steps one column left, back onto
    /// a character.
    pub fn exit_insert(&mut self)
        requires
            old(self).wf(),
        ensures
            final(self).wf(),
            *final(self) == (Editor {
                mode: EditMode::Normal,
                cursor: final(self).cursor,
                ..*old(self)
            }),
            final(self).cursor.y == old(self).cursor.y,
            final(self).cursor.x as int == if old(self).cursor.x == 0 {
                0
            } else {
                old(self).cursor.x - 1
            },
    {
        self.mode = EditMode::Normal;
        if self.cursor.x > 0 {
            self.cursor.x = self.cursor.x - 1;
        }
    }

    /// Enters Command mode with a cleared command line.
    pub fn enter_command(&mut self)
        requires
            old(self).wf(),
            old(self).mode is Normal,
        ensures
            final(self).wf(),
            *final(self) == (Editor {
                mode: EditMode::Command,
                command: final(self).command,
                command_x: 0,
                ..*old(self)
            }),
            final(self).command@.len() == 0,
    {
        self.mode = EditMode::Command;
        self.command.clear();
        self.command_x = 0;
    }

    /// Enters Search mode with a cleared command line and a reset
    /// query; earlier results stay until the next search runs.
    pub fn enter_search(&mut self)
        requires
            old(self).wf(),
            old(self).mode is Normal,
        ensures
            final(self).wf(),
            *final(self) == (Editor {
                mode: EditMode::Search,
                command: final(self).command,
                command_x: 0,
                search: final(self).search,
                ..*old(self)
            }),
            final(self).command@.len() == 0,
            final(self).search.query@.len() == 0,
            final(self).search.results == old(self).search.results,
    {
        self.mode = EditMode::Search;
        self.command.clear();
        self.command_x = 0;
        self.search.query.clear();
    }

    /// Cancels Command mode: back to Normal, command line cleared.
    pub fn cancel_command(&mut self)
        requires
            old(self).wf(),
            old(self).mode is Command,
        ensures
            final(self).wf(),
            *final(self) == (Editor {
                mode: EditMode::Normal,
                command: final(self).command,
                command_x: 0,
                ..*old(self)
            }),
            final(self).command@.len() == 0,
    {
        self.mode = EditMode::Normal;
        self.command.clear();
        self.command_x = 0;
    }

    /// Cancels Search mode: back to Normal, query cleared.
    pub fn cancel_search(&mut self)
        requires
            old(self).wf(),
            old(self).mode is Search,
        ensures
            final(self).wf(),
            *final(self) == (Editor {
                mode: EditMode::Normal,
                command_x: 0,
                search: final(self).search,
                ..*old(self)
            }),
            final(self).search.query@.len() == 0,
            final(self).search.results == old(self).search.results,
    {
        self.mode = EditMode::Normal;
        self.clear_search();
    }

    /// Resets the search query and the command-line cursor.
    pub fn clear_search(&mut self)
        requires
            old(self).wf(),
        ensures
            final(self).wf(),
            *final(self) == (Editor {
                command_x: 0,
                search: final(self).search,
                ..*old(self)
            }),
            final(self).search.query@.len() == 0,
            final(self).search.results == old(self).search.results,
    {
        self.search.query.clear();
        self.command_x = 0;
    }

    /// The line the command-line cursor edits: the search query in
    /// Search mode, the command line otherwise.
    pub open spec fn cmd_buf_len(self) -> int {
        if self.mode is Search {
            self.search.query@.len() as int
        } else {
            self.command@.len() as int
        }
    }

    /// What typing into the command line does: the character enters
    /// the active line at the command cursor, which steps right.
    pub open spec fn cmd_insert_post(self, post: Editor, c: char) -> bool {
        let cx = self.command_x as int;
        &&& post.command_x as int == cx + 1
        &&& if self.mode is Search {
            &&& post == (Editor {
                command_x: post.command_x,
                search: post.search,
                ..self
            })
            &&& post.search.query@ == self.search.query@.insert(cx, c)
            &&& post.search.results == self.search.results
        } else {
            &&& post == (Editor { command_x: post.command_x, command: post.command, ..self })
            &&& post.command@ == self.command@.insert(cx, c)
        }
    }

    /// Inserts one character into the command line or the search
    /// query, at the command cursor.
    pub fn insert_char_in_command(&mut self, c: char)
        requires
            old(self).wf(),
            old(self).mode is Command || old(self).mode is Search,
        ensures
            final(self).wf(),
            old(self).cmd_insert_post(*final(self), c),
    {
        let cx = self.command_x;
        if self.mode == EditMode::Search {
            self.search.query.insert(cx, c);
            // Reading the length bounds the cursor step below.
            let _n = self.search.query.len();
            self.command_x = cx + 1;
        } else {
            self.command.insert(cx, c);
            // Reading the length bounds the cursor step below.
            let _n = self.command.len();
            self.command_x = cx + 1;
        }
    }

    /// What backspacing in the command line does: at column 0 the mode
    /// falls back to Normal and the active line is cleared; elsewhere
    /// the character left of the command cursor leaves.
    pub open spec fn cmd_backspace_post(self, post: Editor) -> bool {
        let cx = self.command_x as int;
        if self.mode is Search {
            if cx == 0 {
                &&& post == (Editor {
                    mode: EditMode::Normal,
                    command_x: 0,
                    search: post.search,
                    ..self
                })
                &&& post.search.query@.len() == 0
                &&& post.search.results == self.search.results
            } else {
                &&& post == (Editor {
                    command_x: post.command_x,
                    search: post.search,
                    ..self
                })
                &&& post.command_x as int == cx - 1
                &&& post.search.query@ == self.search.query@.remove(cx - 1)
                &&& post.search.results == self.search.results
            }
        } else {
            if cx == 0 {
                &&& post == (Editor {
                    mode: EditMode::Normal,
                    command: post.command,
                    command_x: 0,
                    ..self
                })
                &&& post.command@.len() == 0
            } else {
                &&& post == (Editor { command: post.command, command_x: post.command_x, ..self })
                &&& post.command_x as int == cx - 1
                &&& post.command@ == self.command@.remove(cx - 1)
            }
        }
    }

    /// Backspaces in the command line; at column 0 this cancels back
    /// to Normal mode instead.
    pub fn backspace_in_command(&mut self)
        requires
            old(self).wf(),
            old(self).mode is Command || old(self).mode is Search,
        ensures
            final(self).wf(),
            old(self).cmd_backspace_post(*final(self)),
    {
        let cx = self.command_x;
        if self.mode == EditMode::Search {
            if cx == 0 {
                self.cancel_search();
            } else {
                self.search.query.remove(cx - 1);
                self.command_x = cx - 1;
            }
        } else {
            if cx == 0 {
                self.cancel_command();
            } else {
                self.command.remove(cx - 1);
                self.command_x = cx - 1;
            }
        }
    }

    /// Where one motion takes the command-line cursor.
    pub open spec fn moved_command_x(self, mv: CursorMove) -> int {
        let cx = self.command_x as int;
        let n = self.cmd_buf_len();
        match mv {
            CursorMove::Left => if cx == 0 {
                0
            } else {
                cx - 1
            },
            CursorMove::Right => if cx + 1 > n {
                n
            } else {
                cx + 1
            },
            CursorMove::LineBegin => 0,
            CursorMove::LineEnd => n,
            _ => cx,
        }
    }

    /// Moves the cursor inside the command line or the search query;
    /// vertical motions do nothing there.
    pub fn move_command_cursor(&mut self, cursor_move: CursorMove)
        requires
            old(self).wf(),
        ensures
            final(self).wf(),
            *final(self) == (Editor {
                command_x: final(self).command_x,
                ..*old(self)
            }),
            final(self).command_x as int == old(self).moved_command_x(cursor_move),
    {
        let n = if self.mode == EditMode::Search {
            self.search.query.len()
        } else {
            self.command.len()
        };
        match cursor_move {
            CursorMove::Left => {
                if self.command_x > 0 {
                    self.command_x = self.command_x - 1;
                }
            }
            CursorMove::Right => {
                if self.command_x >= n {
                    self.command_x = n;
                } else {
                    self.command_x = self.command_x + 1;
                }
            }
            CursorMove::LineBegin => {
                self.command_x = 0;
            }
            CursorMove::LineEnd => {
                self.command_x = n;
            }
            _ => {}
        }
    }

    /// What closing out a command does: the command string joins the
    /// history (evicting the newest earlier entry once the cap is
    /// reached), the command line clears, and the mode falls back to
    /// Normal.
    pub open spec fn finish_command_post(self, post: Editor) -> bool {
        let h = lines_view(self.command_history@);
        &&& post == (Editor {
            mode: EditMode::Normal,
            command: post.command,
            command_x: 0,
            command_history: post.command_history,
            ..self
        })
        &&& post.command@.len() == 0
        &&& lines_view(post.command_history@) == if h.len() < COMMAND_HISTORY_MAX {
            h.push(self.command@)
        } else {
            h.update(h.len() - 1, self.command@)
        }
    }

    /// Records the executed command in the history, clears the command
    /// line and returns to Normal mode.
    pub fn finish_command(&mut self)
        requires
            old(self).wf(),
            old(self).mode is Command,
        ensures
            final(self).wf(),
            old(self).finish_command_post(*final(self)),
    {
        let mut entry: Vec<char> = Vec::new();
        entry.extend_from_slice(self.command.as_slice());
        if self.command_history.len() >= COMMAND_HISTORY_MAX {
            self.command_history.pop();
        }
        self.command_history.push(entry);
        proof {
            if old(self).command_history@.len() < COMMAND_HISTORY_MAX {
                assert(lines_view(self.command_history@) =~~= lines_view(
                    old(self).command_history@,
                ).push(old(self).command@));
            } else {
                assert(lines_view(self.command_history@) =~~= lines_view(
                    old(self).command_history@,
                ).update(old(self).command_history@.len() - 1, old(self).command@));
            }
        }
        self.command.clear();
        self.command_x = 0;
        self.mode = EditMode::Normal;
    }

    /// What one scroll step does to the cursor column: it stays when a
    /// character is under it on the new row and snaps to `LineEnd`
    /// otherwise.
    pub open spec fn snapped_x(self, ny: int) -> int {
        if self.has_char(self.cursor.x as int, ny) {
            self.cursor.x as int
        } else {
            self.line_end_col(ny)
        }
    }

    /// Scrolls the view and the cursor up by `amount` rows, stopping
    /// at the top.
    pub fn scroll_up(&mut self, amount: usize)
        requires
            old(self).wf(),
        ensures
            final(self).wf(),
            *final(self) == (Editor {
                scroll: (final(self).scroll.0, old(self).scroll.1),
                cursor: final(self).cursor,
                ..*old(self)
            }),
            final(self).scroll.0 as int == if amount > old(self).scroll.0 as int {
                0
            } else {
                old(self).scroll.0 - amount
            },
            final(self).cursor.y as int == if amount > old(self).cursor.y as int {
                0
            } else {
                old(self).cursor.y - amount
            },
            final(self).cursor.x as int == old(self).snapped_x(final(self).cursor.y as int),
    {
        let s = self.scroll.0 as usize;
        let ns = if amount > s {
            0
        } else {
            s - amount
        };
        self.scroll.0 = ns as u16;
        let y = self.cursor.y;
        let ny = if amount > y {
            0
        } else {
            y - amount
        };
        self.clamp_into_row(ny);
    }

    /// Scrolls the view and the cursor down by `amount` rows, stopping
    /// at the last row.
    pub fn scroll_down(&mut self, amount: usize)
        requires
            old(self).wf(),
        ensures
            final(self).wf(),
            *final(self) == (Editor {
                scroll: (final(self).scroll.0, old(self).scroll.1),
                cursor: final(self).cursor,
                ..*old(self)
            }),
            final(self).scroll.0 as int == {
                let cap = old(self).buffer().len() - 1;
                let t = if old(self).scroll.0 + amount > cap {
                    cap
                } else {
                    old(self).scroll.0 + amount
                };
                if t > u16::MAX {
                    u16::MAX as int
                } else {
                    t
                }
            },
            final(self).cursor.y as int == {
                let cap = old(self).buffer().len() - 1;
                if old(self).cursor.y + amount > cap {
                    cap
                } else {
                    old(self).cursor.y + amount
                }
            },
            final(self).cursor.x as int == old(self).snapped_x(final(self).cursor.y as int),
    {
        let cap = self.lines.len() - 1;
        let s = self.scroll.0 as usize;
        let ns = if s >= cap {
            cap
        } else if amount > cap - s {
            cap
        } else {
            s + amount
        };
        self.scroll.0 = if ns > u16::MAX as usize {
            u16::MAX
        } else {
            ns as u16
        };
        let y = self.cursor.y;
        let ny = if y >= cap {
            cap
        } else if amount > cap - y {
            cap
        } else {
            y + amount
        };
        self.clamp_into_row(ny);
    }

    /// Scrolls up by the medium jump.
    pub fn med_scroll_up(&mut self)
        requires
            old(self).wf(),
        ensures
            final(self).wf(),
            *final(self) == (Editor {
                scroll: (final(self).scroll.0, old(self).scroll.1),
                cursor: final(self).cursor,
                ..*old(self)
            }),
            final(self).scroll.0 as int == if MEDIUM_SCROLL > old(self).scroll.0 as int {
                0
            } else {
                old(self).scroll.0 - MEDIUM_SCROLL
            },
            final(self).cursor.y as int == if MEDIUM_SCROLL > old(self).cursor.y as int {
                0
            } else {
                old(self).cursor.y - MEDIUM_SCROLL
            },
            final(self).cursor.x as int == old(self).snapped_x(final(self).cursor.y as int),
    {
        self.scroll_up(MEDIUM_SCROLL);
    }

    /// Scrolls down by the medium jump.
    pub fn med_scroll_down(&mut self)
        requires
            old(self).wf(),
        ensures
            final(self).wf(),
            *final(self) == (Editor {
                scroll: (final(self).scroll.0, old(self).scroll.1),
                cursor: final(self).cursor,
                ..*old(self)
            }),
            final(self).cursor.y as int == {
                let cap = old(self).buffer().len() - 1;
                if old(self).cursor.y + MEDIUM_SCROLL > cap {
                    cap
                } else {
                    old(self).cursor.y + MEDIUM_SCROLL
                }
            },
            final(self).cursor.x as int == old(self).snapped_x(final(self).cursor.y as int),
    {
        self.scroll_down(MEDIUM_SCROLL);
    }

    /// Keeps the cursor row inside the window the renderer shows: a
    /// row above the window pulls the window top up to it, a row below
    /// pushes the top down to `row - height + 1`.
    pub fn adjust_scroll(&mut self, height: u16)
        requires
            old(self).wf(),
        ensures
            final(self).wf(),
            *final(self) == (Editor {
                scroll: (final(self).scroll.0, old(self).scroll.1),
                ..*old(self)
            }),
            final(self).scroll.0 as int == {
                let y = old(self).cursor.y as int;
                let s = old(self).scroll.0 as int;
                if y < s {
                    y
                } else if y >= s + height {
                    let t = y - (if height == 0 {
                        0int
                    } else {
                        height - 1
                    });
                    if t > u16::MAX {
                        u16::MAX as int
                    } else {
                        t
                    }
                } else {
                    s
                }
            },
    {
        let y = self.cursor.y;
        let s = self.scroll.0 as usize;
        let h = height as usize;
        if y < s {
            self.scroll.0 = y as u16;
        } else if y >= s + h {
            let hm = if h == 0 {
                0
            } else {
                h - 1
            };
            let ns = y - hm;
            self.scroll.0 = if ns > u16::MAX as usize {
                u16::MAX
            } else {
                ns as u16
            };
        }
    }

    /// Binds the editor to `path` and loads `content`, split on the
    /// line separator; the cursor returns to the origin.
    pub fn open(&mut self, path: String, content: Vec<char>)
        requires
            old(self).wf(),
        ensures
            final(self).wf(),
            *final(self) == (Editor {
                lines: final(self).lines,
                filename: final(self).filename,
                cursor: (Cursor { x: 0, y: 0 }),
                ..*old(self)
            }),
            final(self).buffer() == split_lines(content@),
            final(self).filename == Some(path),
    {
        let lines = split_content(&content);
        self.lines = lines;
        self.filename = Some(path);
        self.cursor = Cursor { x: 0, y: 0 };
    }

    /// Hands out the joined buffer content for the writer, or records
    /// that no file path is bound.  The write itself happens outside
    /// the crate; `save_finished` records its success.
    pub fn save(&mut self) -> (r: Option<Vec<char>>)
        requires
            old(self).wf(),
        ensures
            final(self).wf(),
            old(self).filename is None ==> r is None && *final(self) == (Editor {
                status_message: StatusMessage::FilenameNotSet,
                ..*old(self)
            }),
            old(self).filename is Some ==> r is Some && *final(self) == *old(self),
            r matches Some(c) ==> c@ == join_lines(old(self).buffer()),
    {
        if self.filename.is_none() {
            self.status_message = StatusMessage::FilenameNotSet;
            return None;
        }
        let contents = join_content(&self.lines);
        Some(contents)
    }

    /// A buffer that `open` loaded and that was not edited joins back
    /// to the file's own content, so opening and saving reproduces
    /// the file exactly.
    pub proof fn lemma_open_save_roundtrip(ed: Editor, content: Seq<char>)
        requires
            ed.buffer() == split_lines(content),
        ensures
            join_lines(ed.buffer()) == content,
    {
        crate::text::lemma_join_split_roundtrip(content);
    }

    /// Records that the buffer reached its bound path.
    pub fn save_finished(&mut self)
        requires
            old(self).wf(),
        ensures
            final(self).wf(),
            *final(self) == (Editor {
                status_message: StatusMessage::FileWritten,
                ..*old(self)
            }),
    {
        self.status_message = StatusMessage::FileWritten;
    }

    /// The persistence gate: the buffer is dirty exactly when a file
    /// path is bound and the on-disk content differs from the joined
    /// buffer.  The caller reads the bound path and hands the content
    /// in; an unbound buffer is never dirty.
    pub fn is_dirty(&self, disk_content: Option<&Vec<char>>) -> (r: bool)
        requires
            self.wf(),
            (self.filename is Some) <==> (disk_content is Some),
        ensures
            self.filename is None ==> r == false,
            disk_content matches Some(d) ==> r == (join_lines(self.buffer()) != d@),
    {
        match disk_content {
            Some(d) => {
                let contents = join_content(&self.lines);
                !chars_eq(&contents, d)
            }
            None => false,
        }
    }

    /// What a goto-line request does: on an all-digit command line the
    /// cursor moves to that 1-indexed row, clamped to the last row,
    /// and the column re-clamps; anything else is silently ignored.
    pub open spec fn goto_post(self, post: Editor) -> bool {
        let s = self.command@;
        if s.len() > 0 && crate::command::all_digits(s) && crate::command::digits_val(s)
            <= u32::MAX {
            let n = crate::command::digits_val(s);
            let t = if n == 0 {
                0
            } else {
                n - 1
            };
            let row = if t > self.buffer().len() - 1 {
                self.buffer().len() - 1
            } else {
                t
            };
            post == (Editor {
                cursor: (Cursor { x: self.snapped_x(row) as usize, y: row as usize }),
                ..self
            })
        } else {
            post == self
        }
    }

    /// Moves the cursor to the row the command line names, 1-indexed
    /// and clamped to the buffer; a command line that is not a number
    /// does nothing.
    pub fn goto_line(&mut self)
        requires
            old(self).wf(),
        ensures
            final(self).wf(),
            old(self).goto_post(*final(self)),
    {
        match parse_u32(&self.command) {
            Some(n) => {
                let t = if n == 0 {
                    0
                } else {
                    (n - 1) as usize
                };
                let last = self.lines.len() - 1;
                let row = if t > last {
                    last
                } else {
                    t
                };
                self.clamp_into_row(row);
            }
            None => {}
        }
    }

    /// What running the current search does: the result list is
    /// rebuilt from the buffer; with no match the status says so and
    /// nothing moves; otherwise the cursor jumps to the first match
    /// and the status counts it as match 1 of the total.
    pub open spec fn execute_search_post(self, post: Editor) -> bool {
        &&& results_ok(post.search.results@, self.buffer(), self.search.query@)
        &&& post.search.query == self.search.query
        &&& if post.search.results@.len() == 0 {
            post == (Editor {
                search: post.search,
                status_message: StatusMessage::PatternNotFound,
                ..self
            })
        } else {
            let first = post.search.results@[0];
            post == (Editor {
                search: post.search,
                status_message: (StatusMessage::SearchCount {
                    current: 1,
                    total: post.search.results@.len() as usize,
                }),
                cursor: (Cursor { x: first.start, y: first.row }),
                ..self
            })
        }
    }

    /// Runs the search for the current query over the buffer, jumping
    /// to the first match.
    pub fn execute_current_search(&mut self)
        requires
            old(self).wf(),
        ensures
            final(self).wf(),
            old(self).execute_search_post(*final(self)),
    {
        self.search.search(&self.lines);
        if self.search.results.len() == 0 {
            self.status_message = StatusMessage::PatternNotFound;
            return ;
        }
        let start = self.search.results[0].start;
        let row = self.search.results[0].row;
        proof {
            if self.search.query@.len() == 0 {
                assert(self.buffer()[row as int].subrange(0, 0) =~= self.search.query@);
                assert(crate::search::match_at(self.buffer()[row as int], self.search.query@, 0));
            }
        }
        self.cursor = Cursor { x: start, y: row };
        let total = self.search.results.len();
        self.status_message = StatusMessage::SearchCount { current: 1, total };
    }

    /// What stepping to the next or previous match does: starting from
    /// the match on the cursor row, the cursor jumps to its cyclic
    /// neighbour in the result list, unless the cursor row carries no
    /// match or the neighbour's row fell out of the buffer since the
    /// search ran.
    pub open spec fn search_step_post(self, post: Editor, forward: bool) -> bool {
        let res = self.search.results@;
        let n = res.len() as int;
        &&& ((forall|j: int| 0 <= j < n ==> (#[trigger] res[j].row) != self.cursor.y) ==> post
            == self)
        &&& forall|i: int|
            (0 <= i < n && (#[trigger] res[i].row) == self.cursor.y && (forall|j: int|
                0 <= j < i ==> res[j].row != self.cursor.y)) ==> {
                let ni = if forward {
                    if i == n - 1 {
                        0
                    } else {
                        i + 1
                    }
                } else {
                    if i == 0 {
                        n - 1
                    } else {
                        i - 1
                    }
                };
                let r = res[ni];
                if (r.row as int) < self.buffer().len() {
                    post == (Editor {
                        cursor: (Cursor {
                            x: if self.has_char(r.start as int, r.row as int) {
                                r.start
                            } else {
                                self.line_end_col(r.row as int) as usize
                            },
                            y: r.row,
                        }),
                        status_message: (StatusMessage::SearchCount {
                            current: (ni + 1) as usize,
                            total: n as usize,
                        }),
                        ..self
                    })
                } else {
                    post == self
                }
            }
    }

    /// Jumps to the match after the one on the cursor row, wrapping at
    /// the end of the result list.
    pub fn search_next(&mut self)
        requires
            old(self).wf(),
        ensures
            final(self).wf(),
            old(self).search_step_post(*final(self), true),
    {
        let row = self.cursor.y;
        let found = self.search.index_of_row(row);
        match found {
            None => {}
            Some(idx) => {
                let n = self.search.results.len();
                let nidx = if idx == n - 1 {
                    0
                } else {
                    idx + 1
                };
                let trow = self.search.results[nidx].row;
                let tstart = self.search.results[nidx].start;
                if trow < self.lines.len() {
                    self.cursor.x = tstart;
                    self.clamp_into_row(trow);
                    self.status_message = StatusMessage::SearchCount {
                        current: nidx + 1,
                        total: n,
                    };
                }
            }
        }
    }

    /// Jumps to the match before the one on the cursor row, wrapping
    /// at the start of the result list.
    pub fn search_prev(&mut self)
        requires
            old(self).wf(),
        ensures
            final(self).wf(),
            old(self).search_step_post(*final(self), false),
    {
        let row = self.cursor.y;
        let found = self.search.index_of_row(row);
        match found {
            None => {}
            Some(idx) => {
                let n = self.search.results.len();
                let pidx = if idx == 0 {
                    n - 1
                } else {
                    idx - 1
                };
                let trow = self.search.results[pidx].row;
                let tstart = self.search.results[pidx].start;
                if trow < self.lines.len() {
                    self.cursor.x = tstart;
                    self.clamp_into_row(trow);
                    self.status_message = StatusMessage::SearchCount {
                        current: pidx + 1,
                        total: n,
                    };
                }
            }
        }
    }

    /// A bare cursor motion: only the cursor changes.
    pub open spec fn motion_post(self, post: Editor, mv: CursorMove) -> bool {
        post == (Editor { cursor: self.moved_cursor(mv), ..self })
    }

    /// Entering insert one column right of the cursor.
    pub open spec fn enter_insert_after_post(self, post: Editor) -> bool {
        &&& post == (Editor { mode: EditMode::Insert, cursor: post.cursor, ..self })
        &&& post.cursor.y == self.cursor.y
        &&& post.cursor.x as int == if (self.cursor.x as int) < self.line_len(
            self.cursor.y as int,
        ) {
            self.cursor.x + 1
        } else {
            self.cursor.x as int
        }
    }

    /// Entering insert one past the end of the cursor's line.
    pub open spec fn enter_insert_line_end_post(self, post: Editor) -> bool {
        &&& post == (Editor { mode: EditMode::Insert, cursor: post.cursor, ..self })
        &&& post.cursor.y == self.cursor.y
        &&& post.cursor.x as int == self.line_len(self.cursor.y as int)
    }

    /// Leaving insert: back to Normal, cursor one column left.
    pub open spec fn exit_insert_post(self, post: Editor) -> bool {
        &&& post == (Editor { mode: EditMode::Normal, cursor: post.cursor, ..self })
        &&& post.cursor.y == self.cursor.y
        &&& post.cursor.x as int == if self.cursor.x == 0 {
            0
        } else {
            self.cursor.x - 1
        }
    }

    /// Entering Command mode with a cleared command line.
    pub open spec fn enter_command_post(self, post: Editor) -> bool {
        &&& post == (Editor {
            mode: EditMode::Command,
            command: post.command,
            command_x: 0,
            ..self
        })
        &&& post.command@.len() == 0
    }

    /// Entering Search mode with a cleared command line and query.
    pub open spec fn enter_search_post(self, post: Editor) -> bool {
        &&& post == (Editor {
            mode: EditMode::Search,
            command: post.command,
            command_x: 0,
            search: post.search,
            ..self
        })
        &&& post.command@.len() == 0
        &&& post.search.query@.len() == 0
        &&& post.search.results == self.search.results
    }

    /// Cancelling Command mode.
    pub open spec fn cancel_command_post(self, post: Editor) -> bool {
        &&& post == (Editor {
            mode: EditMode::Normal,
            command: post.command,
            command_x: 0,
            ..self
        })
        &&& post.command@.len() == 0
    }

    /// Cancelling Search mode.
    pub open spec fn cancel_search_post(self, post: Editor) -> bool {
        &&& post == (Editor {
            mode: EditMode::Normal,
            command_x: 0,
            search: post.search,
            ..self
        })
        &&& post.search.query@.len() == 0
        &&& post.search.results == self.search.results
    }

    /// Opening an empty line below the cursor and entering insert.
    pub open spec fn open_below_post(self, post: Editor) -> bool {
        &&& post == (Editor {
            mode: EditMode::Insert,
            lines: post.lines,
            cursor: (Cursor { x: 0, y: (self.cursor.y + 1) as usize }),
            ..self
        })
        &&& post.buffer() == self.buffer().insert(self.cursor.y + 1, Seq::<char>::empty())
    }

    /// Opening an empty line above the cursor and entering insert.
    pub open spec fn open_above_post(self, post: Editor) -> bool {
        &&& post == (Editor {
            mode: EditMode::Insert,
            lines: post.lines,
            cursor: (Cursor { x: 0, y: self.cursor.y }),
            ..self
        })
        &&& post.buffer() == self.buffer().insert(self.cursor.y as int, Seq::<char>::empty())
    }

    /// A command-line cursor motion: only that cursor changes.
    pub open spec fn move_command_post(self, post: Editor, mv: CursorMove) -> bool {
        &&& post == (Editor { command_x: post.command_x, ..self })
        &&& post.command_x as int == self.moved_command_x(mv)
    }

    /// Committing a search: the search runs, and the mode falls back
    /// to Normal with the command-line cursor reset.
    pub open spec fn search_commit_post(self, post: Editor) -> bool {
        &&& results_ok(post.search.results@, self.buffer(), self.search.query@)
        &&& post.search.query == self.search.query
        &&& if post.search.results@.len() == 0 {
            post == (Editor {
                mode: EditMode::Normal,
                command_x: 0,
                search: post.search,
                status_message: StatusMessage::PatternNotFound,
                ..self
            })
        } else {
            let first = post.search.results@[0];
            post == (Editor {
                mode: EditMode::Normal,
                command_x: 0,
                search: post.search,
                status_message: (StatusMessage::SearchCount {
                    current: 1,
                    total: post.search.results@.len() as usize,
                }),
                cursor: (Cursor { x: first.start, y: first.row }),
                ..self
            })
        }
    }

    /// How a key is routed on the confirm-exit screen: `y` stops the
    /// run loop, `n` or `q` returns to editing.
    pub open spec fn exiting_key_post(self, post: Editor, key: Key) -> bool {
        match key {
            Key::Char(c) => if c == 'y' {
                post == (Editor { running: false, ..self })
            } else if c == 'n' || c == 'q' {
                post == (Editor { current_screen: CurrentScreen::Editing, ..self })
            } else {
                post == self
            },
            _ => post == self,
        }
    }

    /// How a key is routed in Normal mode: motions, edits, mode
    /// entries and search steps.
    pub open spec fn normal_key_post(self, post: Editor, key: Key) -> bool {
        match key {
            Key::Char(c) => if c == 'i' {
                post == (Editor { mode: EditMode::Insert, ..self })
            } else if c == 'a' {
                self.enter_insert_after_post(post)
            } else if c == 'I' {
                post == (Editor {
                    mode: EditMode::Insert,
                    cursor: (Cursor { x: 0, y: self.cursor.y }),
                    ..self
                })
            } else if c == 'A' {
                self.enter_insert_line_end_post(post)
            } else if c == 'h' {
                self.motion_post(post, CursorMove::Left)
            } else if c == 'j' {
                self.motion_post(post, CursorMove::Down)
            } else if c == 'k' {
                self.motion_post(post, CursorMove::Up)
            } else if c == 'l' {
                self.motion_post(post, CursorMove::Right)
            } else if c == 'w' {
                self.motion_post(post, CursorMove::WordStartForward)
            } else if c == 'b' {
                self.motion_post(post, CursorMove::WordStartBackward)
            } else if c == 'e' {
                self.motion_post(post, CursorMove::WordEndForward)
            } else if c == '0' {
                self.motion_post(post, CursorMove::LineBegin)
            } else if c == '$' {
                self.motion_post(post, CursorMove::LineEnd)
            } else if c == 'g' {
                self.motion_post(post, CursorMove::Start)
            } else if c == 'G' {
                self.motion_post(post, CursorMove::End)
            } else if c == 'x' {
                self.delete_char_post(post)
            } else if c == 'd' {
                self.delete_line_post(post)
            } else if c == 'o' {
                self.open_below_post(post)
            } else if c == 'O' {
                self.open_above_post(post)
            } else if c == ':' {
                self.enter_command_post(post)
            } else if c == '/' {
                self.enter_search_post(post)
            } else if c == 'n' {
                self.search_step_post(post, true)
            } else if c == 'N' {
                self.search_step_post(post, false)
            } else {
                post == self
            },
            Key::Up => self.motion_post(post, CursorMove::Up),
            Key::Down => self.motion_post(post, CursorMove::Down),
            Key::Left => self.motion_post(post, CursorMove::Left),
            Key::Right => self.motion_post(post, CursorMove::Right),
            _ => post == self,
        }
    }

    /// How a key is routed in Insert mode: text enters the buffer,
    /// Escape leaves the mode.
    pub open spec fn insert_key_post(self, post: Editor, key: Key) -> bool {
        match key {
            Key::Esc => self.exit_insert_post(post),
            Key::Enter => self.split_post(post),
            Key::Backspace => self.backspace_post(post),
            Key::Tab => self.insert_tab_post(post),
            Key::Char(c) => self.insert_char_post(post, c),
            Key::Up => self.motion_post(post, CursorMove::Up),
            Key::Down => self.motion_post(post, CursorMove::Down),
            Key::Left => self.motion_post(post, CursorMove::Left),
            Key::Right => self.motion_post(post, CursorMove::Right),
        }
    }

    /// How a key is routed in Command mode: the command line is
    /// edited; Enter resolves it and hands the command back, leaving
    /// the state untouched until the caller dispatches it.
    pub open spec fn command_key_post(self, post: Editor, key: Key, cmd: Option<Command>) -> bool {
        match key {
            Key::Esc => cmd is None && self.cancel_command_post(post),
            Key::Enter => cmd == Some(command_of(self.command@)) && post == self,
            Key::Backspace => cmd is None && self.cmd_backspace_post(post),
            Key::Char(c) => cmd is None && self.cmd_insert_post(post, c),
            Key::Left => cmd is None && self.move_command_post(post, CursorMove::Left),
            Key::Right => cmd is None && self.move_command_post(post, CursorMove::Right),
            _ => cmd is None && post == self,
        }
    }

    /// How a key is routed in Search mode: the query is edited in
    /// place; Enter runs the search.
    pub open spec fn search_key_post(self, post: Editor, key: Key) -> bool {
        match key {
            Key::Esc => self.cancel_search_post(post),
            Key::Enter => self.search_commit_post(post),
            Key::Backspace => self.cmd_backspace_post(post),
            Key::Char(c) => self.cmd_insert_post(post, c),
            Key::Left => self.move_command_post(post, CursorMove::Left),
            Key::Right => self.move_command_post(post, CursorMove::Right),
            _ => post == self,
        }
    }

    /// The whole routing contract of one key press.
    pub open spec fn key_post(self, post: Editor, key: Key, cmd: Option<Command>) -> bool {
        match self.current_screen {
            CurrentScreen::Exiting => cmd is None && self.exiting_key_post(post, key),
            CurrentScreen::Editing => match self.mode {
                EditMode::Normal => cmd is None && self.normal_key_post(post, key),
                EditMode::Insert => cmd is None && self.insert_key_post(post, key),
                EditMode::Command => self.command_key_post(post, key, cmd),
                EditMode::Search => cmd is None && self.search_key_post(post, key),
            },
        }
    }

    /// Routes one key press in Normal mode.
    fn handle_key_normal(&mut self, key: Key)
        requires
            old(self).wf(),
            old(self).mode is Normal,
            old(self).current_screen is Editing,
        ensures
            final(self).wf(),
            old(self).normal_key_post(*final(self), key),
    {
        match key {
            Key::Char(c) => {
                if c == 'i' {
                    self.enter_insert();
                } else if c == 'a' {
                    self.enter_insert_after();
                } else if c == 'I' {
                    self.enter_insert_line_start();
                } else if c == 'A' {
                    self.enter_insert_line_end();
                } else if c == 'h' {
                    self.move_cursor(CursorMove::Left);
                } else if c == 'j' {
                    self.move_cursor(CursorMove::Down);
                } else if c == 'k' {
                    self.move_cursor(CursorMove::Up);
                } else if c == 'l' {
                    self.move_cursor(CursorMove::Right);
                } else if c == 'w' {
                    self.move_cursor(CursorMove::WordStartForward);
                } else if c == 'b' {
                    self.move_cursor(CursorMove::WordStartBackward);
                } else if c == 'e' {
                    self.move_cursor(CursorMove::WordEndForward);
                } else if c == '0' {
                    self.move_cursor(CursorMove::LineBegin);
                } else if c == '$' {
                    self.move_cursor(CursorMove::LineEnd);
                } else if c == 'g' {
                    self.move_cursor(CursorMove::Start);
                } else if c == 'G' {
                    self.move_cursor(CursorMove::End);
                } else if c == 'x' {
                    self.delete_char_at_cursor();
                } else if c == 'd' {
                    self.delete_line_at_cursor();
                } else if c == 'o' {
                    self.newline_under_cursor();
                    self.enter_insert();
                } else if c == 'O' {
                    self.newline_above_cursor();
                    self.enter_insert();
                } else if c == ':' {
                    self.enter_command();
                } else if c == '/' {
                    self.enter_search();
                } else if c == 'n' {
                    self.search_next();
                } else if c == 'N' {
                    self.search_prev();
                }
            }
            Key::Up => self.move_cursor(CursorMove::Up),
            Key::Down => self.move_cursor(CursorMove::Down),
            Key::Left => self.move_cursor(CursorMove::Left),
            Key::Right => self.move_cursor(CursorMove::Right),
            _ => {}
        }
    }

    /// Routes one key press in Insert mode.
    fn handle_key_insert(&mut self, key: Key)
        requires
            old(self).wf(),
            old(self).mode is Insert,
        ensures
            final(self).wf(),
            old(self).insert_key_post(*final(self), key),
    {
        match key {
            Key::Esc => self.exit_insert(),
            Key::Enter => self.newline_at_cursor(),
            Key::Backspace => self.backspace_at_cursor(),
            Key::Tab => self.insert_tab(),
            Key::Char(c) => self.insert_char_at_cursor(c),
            Key::Up => self.move_cursor(CursorMove::Up),
            Key::Down => self.move_cursor(CursorMove::Down),
            Key::Left => self.move_cursor(CursorMove::Left),
            Key::Right => self.move_cursor(CursorMove::Right),
        }
    }

    /// Routes one key press in Command mode.
    fn handle_key_command(&mut self, key: Key) -> (cmd: Option<Command>)
        requires
            old(self).wf(),
            old(self).mode is Command,
        ensures
            final(self).wf(),
            old(self).command_key_post(*final(self), key, cmd),
    {
        match key {
            Key::Esc => {
                self.cancel_command();
                None
            }
            Key::Enter => {
                let c = parse_command(&self.command);
                Some(c)
            }
            Key::Backspace => {
                self.backspace_in_command();
                None
            }
            Key::Char(c) => {
                self.insert_char_in_command(c);
                None
            }
            Key::Left => {
                self.move_command_cursor(CursorMove::Left);
                None
            }
            Key::Right => {
                self.move_command_cursor(CursorMove::Right);
                None
            }
            _ => None,
        }
    }

    /// Routes one key press in Search mode.
    fn handle_key_search(&mut self, key: Key)
        requires
            old(self).wf(),
            old(self).mode is Search,
        ensures
            final(self).wf(),
            old(self).search_key_post(*final(self), key),
    {
        match key {
            Key::Esc => self.cancel_search(),
            Key::Enter => {
                self.execute_current_search();
                self.mode = EditMode::Normal;
                self.command_x = 0;
            }
            Key::Backspace => self.backspace_in_command(),
            Key::Char(c) => self.insert_char_in_command(c),
            Key::Left => self.move_command_cursor(CursorMove::Left),
            Key::Right => self.move_command_cursor(CursorMove::Right),
            _ => {}
        }
    }

    /// Inserting a character at the cursor and then backspacing at
    /// the resulting cursor restores the original line content and
    /// column.  While inserting, neither step crosses a line
    /// boundary.
    pub proof fn lemma_insert_backspace_inverse(pre: Editor, mid: Editor, post: Editor, c: char)
        requires
            pre.wf(),
            pre.mode is Insert,
            pre.insert_char_post(mid, c),
            mid.backspace_post(post),
        ensures
            post.buffer() == pre.buffer(),
            post == (Editor { lines: post.lines, ..pre }),
    {
        let x = pre.cursor.x as int;
        let y = pre.cursor.y as int;
        assert(mid.cursor.x as int == x + 1);
        assert(mid.buffer() == pre.buffer().update(y, pre.cur_line().insert(x, c)));
        assert(mid.cur_line() =~= pre.cur_line().insert(x, c));
        assert(pre.cur_line().insert(x, c).remove(x) =~= pre.cur_line());
        assert(post.buffer() =~~= pre.buffer());
    }

    /// Splitting a line at column `k` and then backspacing at the new
    /// line's start joins the halves back together, restoring the
    /// original line and cursor column `k`.
    pub proof fn lemma_split_join_inverse(pre: Editor, mid: Editor, post: Editor)
        requires
            pre.wf(),
            pre.buffer().len() <= usize::MAX,
            pre.split_post(mid),
            mid.backspace_post(post),
        ensures
            post.buffer() == pre.buffer(),
            post.cursor == pre.cursor,
            post == (Editor { lines: post.lines, ..pre }),
    {
        let x = pre.cursor.x as int;
        let y = pre.cursor.y as int;
        let split_buf = pre.buffer().update(y, pre.cur_line().take(x)).insert(
            y + 1,
            pre.cur_line().skip(x),
        );
        assert(mid.buffer() == split_buf);
        assert(mid.cursor.x == 0 && mid.cursor.y as int == y + 1);
        assert(mid.buffer()[y] =~= pre.cur_line().take(x));
        assert(mid.buffer()[y + 1] =~= pre.cur_line().skip(x));
        assert(pre.cur_line().take(x) + pre.cur_line().skip(x) =~= pre.cur_line());
        assert(post.buffer() == mid.buffer().update(
            y,
            mid.buffer()[y] + mid.buffer()[y + 1],
        ).remove(y + 1));
        assert(post.buffer() =~~= pre.buffer());
        assert(post.cursor.x as int == mid.line_len(y));
        assert(mid.line_len(y) == x);
    }

    /// Classifies one key press by screen and mode and applies it.
    /// The one action this function cannot finish is an ex-command
    /// confirmed with Enter: the resolved command comes back to the
    /// caller, who dispatches it with `Command::execute` (reading the
    /// persistence gate and performing any write) and then closes the
    /// command line with `finish_command`.
    pub fn handle_key(&mut self, key: Key) -> (cmd: Option<Command>)
        requires
            old(self).wf(),
        ensures
            final(self).wf(),
            old(self).key_post(*final(self), key, cmd),
    {
        match self.current_screen {
            CurrentScreen::Exiting => {
                match key {
                    Key::Char(c) => {
                        if c == 'y' {
                            self.running = false;
                        } else if c == 'n' || c == 'q' {
                            self.current_screen = CurrentScreen::Editing;
                        }
                    }
                    _ => {}
                }
                None
            }
            CurrentScreen::Editing => match self.mode {
                EditMode::Normal => {
                    self.handle_key_normal(key);
                    None
                }
                EditMode::Insert => {
                    self.handle_key_insert(key);
                    None
                }
                EditMode::Command => self.handle_key_command(key),
                EditMode::Search => {
                    self.handle_key_search(key);
                    None
                }
            },
        }
    }
}

} // verus!
