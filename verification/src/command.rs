//! The ex-style command interpreter: resolving the accumulated command
//! line into one command, and executing it against the editor.

use vstd::prelude::*;

use crate::editor::{CurrentScreen, Editor, StatusMessage};
use crate::text::join_lines;

verus! {

/// A decimal digit.
pub open spec fn is_digit(c: char) -> bool {
    '0' <= c && c <= '9'
}

/// The value of one decimal digit.
pub open spec fn digit_val(c: char) -> int {
    c as int - '0' as int
}

/// Every character is a decimal digit.
pub open spec fn all_digits(s: Seq<char>) -> bool {
    forall|i: int| 0 <= i < s.len() ==> is_digit(#[trigger] s[i])
}

/// The number the digit string denotes, most significant digit first.
pub open spec fn digits_val(s: Seq<char>) -> int
    decreases s.len(),
{
    if s.len() == 0 {
        0
    } else {
        digits_val(s.drop_last()) * 10 + digit_val(s.last())
    }
}

pub proof fn lemma_digits_val_nonneg(s: Seq<char>)
    requires
        all_digits(s),
    ensures
        digits_val(s) >= 0,
    decreases s.len(),
{
    if s.len() > 0 {
        assert(all_digits(s.drop_last()));
        lemma_digits_val_nonneg(s.drop_last());
    }
}

/// A digit string is worth at least any of its prefixes.
pub proof fn lemma_digits_val_prefix_le(s: Seq<char>, i: int)
    requires
        all_digits(s),
        0 <= i <= s.len(),
    ensures
        digits_val(s.take(i)) <= digits_val(s),
    decreases s.len() - i,
{
    if i == s.len() {
        assert(s.take(i) =~= s);
    } else {
        assert(s.take(i + 1).drop_last() =~= s.take(i));
        assert(s.take(i + 1).last() == s[i]);
        assert(all_digits(s.take(i)));
        lemma_digits_val_nonneg(s.take(i));
        assert(digits_val(s.take(i + 1)) == digits_val(s.take(i)) * 10 + digit_val(s[i]));
        lemma_digits_val_prefix_le(s, i + 1);
    }
}

/// Parses the whole string as an unsigned decimal number.  The parse
/// succeeds exactly on non-empty all-digit strings whose value fits.
pub fn parse_u32(s: &Vec<char>) -> (r: Option<u32>)
    ensures
        (r is Some) <==> (s@.len() > 0 && all_digits(s@) && digits_val(s@) <= u32::MAX),
        r matches Some(v) ==> v as int == digits_val(s@),
{
    if s.len() == 0 {
        return None;
    }
    let mut acc: u32 = 0;
    let mut i: usize = 0;
    proof {
        assert(s@.take(0) =~= Seq::<char>::empty());
    }
    while i < s.len()
        invariant
            0 < s@.len(),
            i <= s@.len(),
            all_digits(s@.take(i as int)),
            acc as int == digits_val(s@.take(i as int)),
        decreases s@.len() - i,
    {
        let c = s[i];
        if !(c >= '0' && c <= '9') {
            return None;
        }
        let d = (c as u32) - ('0' as u32);
        proof {
            assert(s@.take(i + 1).drop_last() =~= s@.take(i as int));
            assert(s@.take(i + 1).last() == s@[i as int]);
            assert(all_digits(s@.take(i + 1)));
            assert(digits_val(s@.take(i + 1)) == acc as int * 10 + d as int);
        }
        // u32::MAX / 10 is 429_496_729 and u32::MAX % 10 is 5.
        if acc > 429496729 || (acc == 429496729 && d > 5) {
            proof {
                assert(digits_val(s@.take(i + 1)) > u32::MAX);
                if all_digits(s@) {
                    lemma_digits_val_prefix_le(s@, i + 1);
                }
            }
            return None;
        }
        acc = acc * 10 + d;
        i = i + 1;
    }
    proof {
        assert(s@.take(s@.len() as int) =~= s@);
    }
    Some(acc)
}

/// One resolved ex-style command.
#[derive(Clone, Copy, PartialEq, Eq, Structural, Debug)]
pub enum Command {
    GotoLine,
    Quit,
    ForceQuit,
    Write,
    ForceWrite,
    WriteAndQuit,
    ForceWriteAndQuit,
}

/// The fixed dictionary of command words; anything else is read as a
/// goto-line request, which in turn ignores what it cannot parse.
pub open spec fn command_of(s: Seq<char>) -> Command {
    if s == seq!['q'] {
        Command::Quit
    } else if s == seq!['q', '!'] {
        Command::ForceQuit
    } else if s == seq!['w'] {
        Command::Write
    } else if s == seq!['w', '!'] {
        Command::ForceWrite
    } else if s == seq!['w', 'q'] {
        Command::WriteAndQuit
    } else if s == seq!['w', 'q', '!'] {
        Command::ForceWriteAndQuit
    } else {
        Command::GotoLine
    }
}

/// Resolves the accumulated command line against the dictionary.
pub fn parse_command(s: &Vec<char>) -> (r: Command)
    ensures
        r == command_of(s@),
{
    if s.len() == 1 && s[0] == 'q' {
        proof {
            assert(s@ =~= seq!['q']);
        }
        Command::Quit
    } else if s.len() == 2 && s[0] == 'q' && s[1] == '!' {
        proof {
            assert(s@ =~= seq!['q', '!']);
        }
        Command::ForceQuit
    } else if s.len() == 1 && s[0] == 'w' {
        proof {
            assert(s@ =~= seq!['w']);
        }
        Command::Write
    } else if s.len() == 2 && s[0] == 'w' && s[1] == '!' {
        proof {
            assert(s@ =~= seq!['w', '!']);
        }
        Command::ForceWrite
    } else if s.len() == 2 && s[0] == 'w' && s[1] == 'q' {
        proof {
            assert(s@ =~= seq!['w', 'q']);
        }
        Command::WriteAndQuit
    } else if s.len() == 3 && s[0] == 'w' && s[1] == 'q' && s[2] == '!' {
        proof {
            assert(s@ =~= seq!['w', 'q', '!']);
        }
        Command::ForceWriteAndQuit
    } else {
        Command::GotoLine
    }
}

/// What executing one command does.  `dirty` is the persistence
/// gate's answer, read by the caller just before the dispatch; a
/// returned content is what the caller must write to the bound path.
pub open spec fn execute_post(
    cmd: Command,
    pre: Editor,
    post: Editor,
    dirty: bool,
    to_write: Option<Vec<char>>,
) -> bool {
    match cmd {
        Command::Quit => {
            &&& to_write is None
            &&& if dirty {
                post == (Editor { current_screen: CurrentScreen::Exiting, ..pre })
            } else {
                post == (Editor { running: false, ..pre })
            }
        }
        Command::ForceQuit => {
            &&& to_write is None
            &&& post == (Editor { running: false, ..pre })
        }
        Command::Write | Command::ForceWrite | Command::WriteAndQuit
            | Command::ForceWriteAndQuit => {
            if pre.filename is None {
                &&& to_write is None
                &&& post == (Editor { status_message: StatusMessage::FilenameNotSet, ..pre })
            } else {
                &&& post == pre
                &&& to_write is Some
                &&& (to_write matches Some(c) ==> c@ == join_lines(pre.buffer()))
            }
        }
        Command::GotoLine => {
            &&& to_write is None
            &&& pre.goto_post(post)
        }
    }
}

/// What the caller reports back after attempting the write a command
/// asked for: on success the status notes the write, and the quitting
/// write commands stop the run loop; a failed write changes nothing
/// here and is surfaced by the caller.
pub open spec fn after_write_post(cmd: Command, pre: Editor, post: Editor, write_ok: bool) -> bool {
    if write_ok {
        match cmd {
            Command::Write | Command::ForceWrite => post == (Editor {
                status_message: StatusMessage::FileWritten,
                ..pre
            }),
            Command::WriteAndQuit | Command::ForceWriteAndQuit => post == (Editor {
                status_message: StatusMessage::FileWritten,
                running: false,
                ..pre
            }),
            _ => post == pre,
        }
    } else {
        post == pre
    }
}

impl Command {
    /// Executes the resolved command against the editor.  Quitting
    /// consults the `dirty` flag: a dirty buffer turns the quit
    /// into the confirm-exit screen.  The write commands hand the
    /// joined buffer content back for the caller to write; the caller
    /// then reports the outcome through `after_write`.
    pub fn execute(self, editor: &mut Editor, dirty: bool) -> (to_write: Option<Vec<char>>)
        requires
            old(editor).wf(),
        ensures
            final(editor).wf(),
            execute_post(self, *old(editor), *final(editor), dirty, to_write),
    {
        match self {
            Command::Quit => {
                if dirty {
                    editor.current_screen = CurrentScreen::Exiting;
                } else {
                    editor.running = false;
                }
                None
            }
            Command::ForceQuit => {
                editor.running = false;
                None
            }
            Command::Write | Command::ForceWrite | Command::WriteAndQuit
                | Command::ForceWriteAndQuit => editor.save(),
            Command::GotoLine => {
                editor.goto_line();
                None
            }
        }
    }

    /// Records the outcome of the write that `execute` asked for: on
    /// success the status notes it and a write-and-quit command stops
    /// the run loop, the write having made the buffer clean.
    pub fn after_write(self, editor: &mut Editor, write_ok: bool)
        requires
            old(editor).wf(),
        ensures
            final(editor).wf(),
            after_write_post(self, *old(editor), *final(editor), write_ok),
    {
        if !write_ok {
            return ;
        }
        match self {
            Command::Write | Command::ForceWrite => {
                editor.save_finished();
            }
            Command::WriteAndQuit | Command::ForceWriteAndQuit => {
                editor.save_finished();
                editor.running = false;
            }
            _ => {}
        }
    }
}

} // verus!
