//! Word-boundary motions over a single line.
//!
//! A character is classified as separator (blank) or word character;
//! there is no separate punctuation class.  Lines never contain the
//! line separator, so blank means space or tab.

use vstd::prelude::*;

verus! {

/// Whether a character separates words.
pub open spec fn is_blank(c: char) -> bool {
    c == ' ' || c == '\t'
}

/// Executable mirror of `is_blank`.
pub fn blank_char(c: char) -> (r: bool)
    ensures
        r == is_blank(c),
{
    c == ' ' || c == '\t'
}

/// The smallest index at or after `i` holding a blank, or the line
/// length when the rest of the line is word characters.
pub open spec fn next_blank_or_end(line: Seq<char>, i: int) -> int
    recommends
        0 <= i,
    decreases line.len() - i,
{
    if i >= line.len() {
        line.len() as int
    } else if is_blank(line[i]) {
        i
    } else {
        next_blank_or_end(line, i + 1)
    }
}

/// The smallest index at or after `i` holding a word character, or the
/// line length when the rest of the line is blanks.
pub open spec fn next_word_or_end(line: Seq<char>, i: int) -> int
    recommends
        0 <= i,
    decreases line.len() - i,
{
    if i >= line.len() {
        line.len() as int
    } else if !is_blank(line[i]) {
        i
    } else {
        next_word_or_end(line, i + 1)
    }
}

/// The largest index at or before `i` holding a word character, or -1
/// when everything up to `i` is blank.
pub open spec fn prev_word_or_none(line: Seq<char>, i: int) -> int
    recommends
        i < line.len(),
    decreases i + 1,
{
    if i < 0 {
        -1
    } else if !is_blank(line[i]) {
        i
    } else {
        prev_word_or_none(line, i - 1)
    }
}

/// The first index of the word run that contains index `j`.
pub open spec fn run_start(line: Seq<char>, j: int) -> int
    recommends
        0 <= j < line.len(),
        !is_blank(line[j]),
    decreases j,
{
    if j <= 0 {
        0
    } else if is_blank(line[j - 1]) {
        j
    } else {
        run_start(line, j - 1)
    }
}

/// The last index of the word run that contains index `j`.
pub open spec fn run_end(line: Seq<char>, j: int) -> int
    recommends
        0 <= j < line.len(),
        !is_blank(line[j]),
    decreases line.len() - j,
{
    if j + 1 >= line.len() {
        line.len() - 1
    } else if is_blank(line[j + 1]) {
        j
    } else {
        run_end(line, j + 1)
    }
}

/// Where `WordStartForward` lands: skip the current word run, then the
/// blanks after it; the landing index is the start of the next word
/// run, or nothing when no word run follows.
pub open spec fn word_start_forward(line: Seq<char>, x: int) -> Option<int> {
    let s = next_word_or_end(line, next_blank_or_end(line, x));
    if s < line.len() {
        Some(s)
    } else {
        None
    }
}

/// Where `WordStartBackward` lands: the start of the word run ending
/// before the cursor, or nothing when only blanks lie before it.
pub open spec fn word_start_backward(line: Seq<char>, x: int) -> Option<int> {
    if x <= 0 {
        None
    } else {
        let j = prev_word_or_none(line, x - 1);
        if j < 0 {
            None
        } else {
            Some(run_start(line, j))
        }
    }
}

/// Where `WordEndForward` lands: the end of the word run at or after
/// the next position, or nothing when no word character follows.
pub open spec fn word_end_forward(line: Seq<char>, x: int) -> Option<int> {
    let s = next_word_or_end(line, x + 1);
    if s < line.len() {
        Some(run_end(line, s))
    } else {
        None
    }
}

/// Finds the start of the next word after the cursor column.
pub fn find_word_start_forward(line: &Vec<char>, x: usize) -> (r: Option<usize>)
    requires
        x <= line@.len(),
    ensures
        (r is None) == (word_start_forward(line@, x as int) is None),
        r matches Some(i) ==> word_start_forward(line@, x as int) == Some(i as int),
{
    let mut j: usize = x;
    while j < line.len() && !blank_char(line[j])
        invariant
            x <= j <= line@.len(),
            next_blank_or_end(line@, x as int) == next_blank_or_end(line@, j as int),
        decreases line@.len() - j,
    {
        proof {
            assert(next_blank_or_end(line@, j as int) == next_blank_or_end(line@, j + 1));
        }
        j = j + 1;
    }
    proof {
        assert(next_blank_or_end(line@, j as int) == j as int);
    }
    let mut k: usize = j;
    while k < line.len() && blank_char(line[k])
        invariant
            j <= k <= line@.len(),
            next_word_or_end(line@, j as int) == next_word_or_end(line@, k as int),
        decreases line@.len() - k,
    {
        proof {
            assert(next_word_or_end(line@, k as int) == next_word_or_end(line@, k + 1));
        }
        k = k + 1;
    }
    proof {
        assert(next_word_or_end(line@, k as int) == k as int);
    }
    if k < line.len() {
        Some(k)
    } else {
        None
    }
}

/// Finds the start of the word run ending at or before the cursor
/// column.
pub fn find_word_start_backward(line: &Vec<char>, x: usize) -> (r: Option<usize>)
    requires
        x <= line@.len(),
    ensures
        (r is None) == (word_start_backward(line@, x as int) is None),
        r matches Some(i) ==> word_start_backward(line@, x as int) == Some(i as int) && i
            < line@.len(),
{
    if x == 0 {
        return None;
    }
    let mut j: usize = x - 1;
    while j > 0 && blank_char(line[j])
        invariant
            0 <= j < line@.len() || (j < x && x <= line@.len()),
            j < x,
            prev_word_or_none(line@, x - 1) == prev_word_or_none(line@, j as int),
        decreases j,
    {
        proof {
            assert(prev_word_or_none(line@, j as int) == prev_word_or_none(line@, j - 1));
        }
        j = j - 1;
    }
    if blank_char(line[j]) {
        proof {
            assert(j == 0);
            assert(prev_word_or_none(line@, -1) == -1);
            assert(prev_word_or_none(line@, 0) == -1);
        }
        return None;
    }
    proof {
        assert(prev_word_or_none(line@, j as int) == j as int);
    }
    let mut k: usize = j;
    while k > 0 && !blank_char(line[k - 1])
        invariant
            0 <= k <= j < line@.len(),
            !is_blank(line@[j as int]),
            run_start(line@, j as int) == run_start(line@, k as int),
        decreases k,
    {
        proof {
            assert(run_start(line@, k as int) == run_start(line@, k - 1));
        }
        k = k - 1;
    }
    proof {
        assert(run_start(line@, k as int) == k as int);
    }
    Some(k)
}

/// Finds the end of the current or next word run after the cursor
/// column.
pub fn find_word_end_forward(line: &Vec<char>, x: usize) -> (r: Option<usize>)
    requires
        x <= line@.len(),
    ensures
        (r is None) == (word_end_forward(line@, x as int) is None),
        r matches Some(i) ==> word_end_forward(line@, x as int) == Some(i as int) && i
            < line@.len(),
{
    if x >= line.len() {
        proof {
            assert(next_word_or_end(line@, x + 1) == line@.len());
        }
        return None;
    }
    let mut k: usize = x + 1;
    while k < line.len() && blank_char(line[k])
        invariant
            x + 1 <= k,
            k <= line@.len() || k == x + 1,
            next_word_or_end(line@, x + 1) == next_word_or_end(line@, k as int),
        decreases line@.len() - k,
    {
        proof {
            assert(next_word_or_end(line@, k as int) == next_word_or_end(line@, k + 1));
        }
        k = k + 1;
    }
    if k >= line.len() {
        proof {
            assert(next_word_or_end(line@, k as int) == line@.len());
        }
        return None;
    }
    proof {
        assert(next_word_or_end(line@, k as int) == k as int);
    }
    let mut e: usize = k;
    while e < line.len() - 1 && !blank_char(line[e + 1])
        invariant
            k <= e < line@.len(),
            !is_blank(line@[e as int]),
            run_end(line@, k as int) == run_end(line@, e as int),
        decreases line@.len() - e,
    {
        proof {
            assert(run_end(line@, e as int) == run_end(line@, e + 1));
        }
        e = e + 1;
    }
    proof {
        assert(run_end(line@, e as int) == e as int);
    }
    Some(e)
}

} // verus!
