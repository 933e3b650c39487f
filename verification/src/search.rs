//! The incremental search engine: a linear scan that records, per
//! line, the first occurrence of the query, in ascending row order.

use vstd::prelude::*;

use crate::text::lines_view;

verus! {

/// The query occurs in `line` at index `i`.
pub open spec fn match_at(line: Seq<char>, q: Seq<char>, i: int) -> bool {
    &&& 0 <= i
    &&& i + q.len() <= line.len()
    &&& line.subrange(i, i + q.len()) == q
}

/// The query occurs somewhere in `line`.
pub open spec fn has_match(line: Seq<char>, q: Seq<char>) -> bool {
    exists|i: int| match_at(line, q, i)
}

/// One recorded occurrence of the query on a line.
pub struct SearchResult {
    /// The full text of the matching line, as it read when the search
    /// ran.
    pub line: Vec<char>,
    /// The row the occurrence is on.
    pub row: usize,
    /// The column of the occurrence's first character.
    pub start: usize,
    /// One past the occurrence's last character.
    pub end: usize,
}

/// The current query together with its recorded matches.
pub struct Search {
    pub query: Vec<char>,
    pub results: Vec<SearchResult>,
}

/// What `Search::search` promises of its result list: every entry is
/// the first occurrence of the query on its row, rows ascend strictly,
/// and every row with an occurrence is represented.
pub open spec fn results_ok(results: Seq<SearchResult>, lines: Seq<Seq<char>>, q: Seq<char>) -> bool {
    &&& forall|k: int|
        0 <= k < results.len() ==> {
            let r = #[trigger] results[k];
            &&& 0 <= r.row < lines.len()
            &&& match_at(lines[r.row as int], q, r.start as int)
            &&& forall|j: int| 0 <= j < r.start ==> !match_at(lines[r.row as int], q, j)
            &&& r.end == r.start + q.len()
            &&& r.line@ == lines[r.row as int]
        }
    &&& forall|k1: int, k2: int|
        0 <= k1 < k2 < results.len() ==> #[trigger] results[k1].row < #[trigger] results[k2].row
    &&& forall|row: int|
        0 <= row < lines.len() && #[trigger] has_match(lines[row], q) ==> exists|k: int|
            0 <= k < results.len() && #[trigger] results[k].row == row
}

/// Decides whether the query occurs in `line` starting exactly at `i`.
fn match_here(line: &Vec<char>, q: &Vec<char>, i: usize) -> (r: bool)
    requires
        i + q@.len() <= line@.len(),
    ensures
        r == match_at(line@, q@, i as int),
{
    // Reading the length bounds the index arithmetic below.
    let _line_len = line.len();
    let mut j: usize = 0;
    while j < q.len()
        invariant
            i + q@.len() <= line@.len(),
            line@.len() <= usize::MAX,
            j <= q@.len(),
            forall|t: int| 0 <= t < j ==> line@[i + t] == q@[t],
        decreases q@.len() - j,
    {
        if line[i + j] != q[j] {
            proof {
                assert(line@.subrange(i as int, i + q@.len())[j as int] == line@[i + j]);
            }
            return false;
        }
        j = j + 1;
    }
    proof {
        assert(line@.subrange(i as int, i + q@.len()) =~= q@);
    }
    true
}

/// Finds the first occurrence of the query in `line`, as an index, or
/// nothing when the query does not occur.  An empty query occurs at
/// column 0 of every line.
pub fn find_first(line: &Vec<char>, q: &Vec<char>) -> (r: Option<usize>)
    ensures
        r matches Some(i) ==> match_at(line@, q@, i as int) && forall|j: int|
            0 <= j < i ==> !match_at(line@, q@, j),
        r is None ==> forall|j: int| !match_at(line@, q@, j),
{
    if q.len() > line.len() {
        return None;
    }
    let bound = line.len() - q.len();
    let mut i: usize = 0;
    while i <= bound
        invariant
            q@.len() <= line@.len(),
            bound == line@.len() - q@.len(),
            i <= bound + 1,
            forall|j: int| 0 <= j < i ==> !match_at(line@, q@, j),
        decreases bound + 1 - i,
    {
        if match_here(line, q, i) {
            return Some(i);
        }
        if i == bound {
            return None;
        }
        i = i + 1;
    }
    None
}

impl Search {
    /// The position of the first recorded match that sits on `row`.
    pub fn index_of_row(&self, row: usize) -> (r: Option<usize>)
        ensures
            r matches Some(i) ==> i < self.results@.len() && self.results@[i as int].row == row
                && forall|j: int| 0 <= j < i ==> self.results@[j].row != row,
            r is None ==> forall|j: int|
                0 <= j < self.results@.len() ==> self.results@[j].row != row,
    {
        let mut i: usize = 0;
        while i < self.results.len()
            invariant
                i <= self.results@.len(),
                forall|j: int| 0 <= j < i ==> self.results@[j].row != row,
            decreases self.results@.len() - i,
        {
            if self.results[i].row == row {
                return Some(i);
            }
            i = i + 1;
        }
        None
    }

    /// Scans every line and records, per line, at most the first
    /// occurrence of the query, in ascending row order.
    pub fn search(&mut self, lines: &Vec<Vec<char>>)
        ensures
            final(self).query == old(self).query,
            results_ok(final(self).results@, lines_view(lines@), old(self).query@),
    {
        self.results.clear();
        let mut i: usize = 0;
        while i < lines.len()
            invariant
                i <= lines@.len(),
                self.query == old(self).query,
                forall|k: int|
                    0 <= k < self.results@.len() ==> {
                        let r = #[trigger] self.results@[k];
                        &&& 0 <= r.row < i
                        &&& match_at(lines_view(lines@)[r.row as int], self.query@, r.start as int)
                        &&& forall|j: int|
                            0 <= j < r.start ==> !match_at(
                                lines_view(lines@)[r.row as int],
                                self.query@,
                                j,
                            )
                        &&& r.end == r.start + self.query@.len()
                        &&& r.line@ == lines_view(lines@)[r.row as int]
                    },
                forall|k1: int, k2: int|
                    0 <= k1 < k2 < self.results@.len() ==> #[trigger] self.results@[k1].row
                        < #[trigger] self.results@[k2].row,
                forall|row: int|
                    0 <= row < i && #[trigger] has_match(lines_view(lines@)[row], self.query@)
                        ==> exists|k: int|
                        0 <= k < self.results@.len() && #[trigger] self.results@[k].row == row,
            decreases lines@.len() - i,
        {
            let row_line = &lines[i];
            // Reading the length bounds the match-end arithmetic below.
            let _row_len = row_line.len();
            let found = find_first(row_line, &self.query);
            match found {
                Some(start) => {
                    let mut line_copy: Vec<char> = Vec::new();
                    line_copy.extend_from_slice(row_line.as_slice());
                    proof {
                        assert(line_copy@ =~= lines@[i as int]@);
                    }
                    let r = SearchResult { line: line_copy, row: i, start, end: start + self.query.len() };
                    let ghost pre = self.results@;
                    self.results.push(r);
                    proof {
                        assert(self.results@[pre.len() as int].row == i);
                        assert forall|row: int|
                            0 <= row < i + 1 && #[trigger] has_match(
                                lines_view(lines@)[row],
                                self.query@,
                            ) implies exists|k: int|
                            0 <= k < self.results@.len() && #[trigger] self.results@[k].row
                                == row by {
                            if row < i {
                                let k = choose|k: int|
                                    0 <= k < pre.len() && #[trigger] pre[k].row == row;
                                assert(self.results@[k].row == row);
                            } else {
                                assert(self.results@[pre.len() as int].row == row);
                            }
                        }
                    }
                }
                None => {
                    proof {
                        assert(!has_match(lines_view(lines@)[i as int], self.query@));
                    }
                }
            }
            i = i + 1;
        }
    }
}

} // verus!
