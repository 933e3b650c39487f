//! Character-sequence helpers shared by the buffer and the persistence
//! gate: splitting file content on the line separator, joining lines
//! back, and comparing character vectors.

use vstd::prelude::*;

verus! {

/// Mathematical model of splitting content on `'\n'`.  Splitting never
/// yields an empty list: empty content is one empty line.
pub open spec fn split_lines(s: Seq<char>) -> Seq<Seq<char>>
    decreases s.len(),
{
    if s.len() == 0 {
        seq![Seq::<char>::empty()]
    } else if s[0] == '\n' {
        seq![Seq::<char>::empty()] + split_lines(s.drop_first())
    } else {
        let rest = split_lines(s.drop_first());
        seq![seq![s[0]] + rest[0]] + rest.drop_first()
    }
}

/// Mathematical model of joining lines with `'\n'`.
pub open spec fn join_lines(ls: Seq<Seq<char>>) -> Seq<char>
    decreases ls.len(),
{
    if ls.len() == 0 {
        Seq::empty()
    } else if ls.len() == 1 {
        ls[0]
    } else {
        ls[0] + seq!['\n'] + join_lines(ls.drop_first())
    }
}

/// The view of a vector of lines as a sequence of character sequences.
pub open spec fn lines_view(v: Seq<Vec<char>>) -> Seq<Seq<char>> {
    Seq::new(v.len(), |i: int| v[i]@)
}

pub proof fn lemma_split_lines_len(s: Seq<char>)
    ensures
        split_lines(s).len() >= 1,
    decreases s.len(),
{
    if s.len() == 0 {
    } else {
        lemma_split_lines_len(s.drop_first());
    }
}

/// Joining what splitting produced gives the original content back:
/// a buffer loaded from a file and saved without edits reproduces the
/// file byte for byte.
pub proof fn lemma_join_split_roundtrip(s: Seq<char>)
    ensures
        join_lines(split_lines(s)) == s,
    decreases s.len(),
{
    if s.len() == 0 {
        assert(join_lines(split_lines(s)) =~= s);
    } else if s[0] == '\n' {
        lemma_join_split_roundtrip(s.drop_first());
        lemma_split_lines_len(s.drop_first());
        let parts = seq![Seq::<char>::empty()] + split_lines(s.drop_first());
        assert(parts.drop_first() =~~= split_lines(s.drop_first()));
        assert(join_lines(split_lines(s)) =~= s);
    } else {
        lemma_join_split_roundtrip(s.drop_first());
        lemma_split_lines_len(s.drop_first());
        let rest = split_lines(s.drop_first());
        let parts = seq![seq![s[0]] + rest[0]] + rest.drop_first();
        assert(split_lines(s) == parts);
        if rest.len() == 1 {
            assert(join_lines(rest) == rest[0]);
            assert(parts.len() == 1);
            assert(join_lines(parts) == seq![s[0]] + rest[0]);
            assert(join_lines(split_lines(s)) =~= s);
        } else {
            assert(parts.len() >= 2);
            assert(parts.drop_first() =~~= rest.drop_first());
            assert(join_lines(parts) == (seq![s[0]] + rest[0]) + seq!['\n'] + join_lines(
                rest.drop_first(),
            ));
            assert(join_lines(rest) == rest[0] + seq!['\n'] + join_lines(rest.drop_first()));
            assert((seq![s[0]] + rest[0]) + seq!['\n'] + join_lines(rest.drop_first()) =~= seq![
                s[0],
            ] + (rest[0] + seq!['\n'] + join_lines(rest.drop_first())));
            assert(seq![s[0]] + s.drop_first() =~= s);
            assert(join_lines(split_lines(s)) =~= s);
        }
    }
}

/// Appending one character to the content extends the last line, or
/// opens a fresh empty line when the character is the separator.
pub proof fn lemma_split_lines_push(s: Seq<char>, c: char)
    ensures
        c == '\n' ==> split_lines(s.push(c)) == split_lines(s).push(Seq::<char>::empty()),
        c != '\n' ==> split_lines(s.push(c)) == split_lines(s).update(
            split_lines(s).len() - 1,
            split_lines(s).last().push(c),
        ),
    decreases s.len(),
{
    lemma_split_lines_len(s);
    if s.len() == 0 {
        let t = s.push(c);
        assert(t[0] == c);
        assert(t.drop_first() =~= Seq::<char>::empty());
        assert(split_lines(t.drop_first()) == seq![Seq::<char>::empty()]);
        if c == '\n' {
            assert(split_lines(t) =~~= split_lines(s).push(Seq::<char>::empty()));
        } else {
            assert(split_lines(t) =~~= split_lines(s).update(0, split_lines(s).last().push(c)));
        }
    } else {
        let t = s.push(c);
        assert(t[0] == s[0]);
        assert(t.drop_first() =~= s.drop_first().push(c));
        lemma_split_lines_push(s.drop_first(), c);
        lemma_split_lines_len(s.drop_first());
        let rest = split_lines(s.drop_first());
        let rest2 = split_lines(s.drop_first().push(c));
        if s[0] == '\n' {
            if c == '\n' {
                assert(split_lines(t) =~~= split_lines(s).push(Seq::<char>::empty()));
            } else {
                assert(rest2 == rest.update(rest.len() - 1, rest.last().push(c)));
                assert(split_lines(t) =~~= split_lines(s).update(
                    split_lines(s).len() - 1,
                    split_lines(s).last().push(c),
                ));
            }
        } else {
            if c == '\n' {
                assert(rest2 == rest.push(Seq::<char>::empty()));
                assert(rest2[0] == rest[0]);
                assert(rest2.drop_first() =~~= rest.drop_first().push(Seq::<char>::empty()));
                assert(split_lines(t) =~~= split_lines(s).push(Seq::<char>::empty()));
            } else {
                assert(rest2 == rest.update(rest.len() - 1, rest.last().push(c)));
                if rest.len() == 1 {
                    assert(rest2[0] == rest[0].push(c));
                    assert(rest2.drop_first() =~~= rest.drop_first());
                    assert(split_lines(t) =~~= split_lines(s).update(
                        split_lines(s).len() - 1,
                        split_lines(s).last().push(c),
                    ));
                } else {
                    assert(rest2[0] == rest[0]);
                    assert(rest2.drop_first() =~~= rest.drop_first().update(
                        rest.drop_first().len() - 1,
                        rest.drop_first().last().push(c),
                    ));
                    assert(split_lines(t) =~~= split_lines(s).update(
                        split_lines(s).len() - 1,
                        split_lines(s).last().push(c),
                    ));
                }
            }
        }
    }
}

/// Joining after appending a line appends a separator and that line.
pub proof fn lemma_join_lines_push(ls: Seq<Seq<char>>, l: Seq<char>)
    requires
        ls.len() >= 1,
    ensures
        join_lines(ls.push(l)) == join_lines(ls) + seq!['\n'] + l,
    decreases ls.len(),
{
    if ls.len() == 1 {
        assert(ls.push(l).drop_first() =~~= seq![l]);
        assert(join_lines(ls.push(l).drop_first()) == l);
        assert(join_lines(ls.push(l)) =~= join_lines(ls) + seq!['\n'] + l);
    } else {
        assert(ls.push(l).drop_first() =~~= ls.drop_first().push(l));
        lemma_join_lines_push(ls.drop_first(), l);
        assert(join_lines(ls.push(l)) =~= join_lines(ls) + seq!['\n'] + l);
    }
}

/// Splits file content on the line separator; the result always holds
/// at least one line.
pub fn split_content(content: &Vec<char>) -> (r: Vec<Vec<char>>)
    ensures
        lines_view(r@) == split_lines(content@),
        r@.len() >= 1,
{
    let mut out: Vec<Vec<char>> = Vec::new();
    let mut cur: Vec<char> = Vec::new();
    let mut i: usize = 0;
    proof {
        assert(content@.take(0) =~= Seq::<char>::empty());
        assert(split_lines(content@.take(0)) =~~= lines_view(out@).push(cur@));
    }
    while i < content.len()
        invariant
            i <= content@.len(),
            split_lines(content@.take(i as int)) == lines_view(out@).push(cur@),
        decreases content@.len() - i,
    {
        let c = content[i];
        proof {
            assert(content@.take(i + 1) =~= content@.take(i as int).push(content@[i as int]));
            lemma_split_lines_push(content@.take(i as int), c);
            lemma_split_lines_len(content@.take(i as int));
        }
        if c == '\n' {
            out.push(cur);
            cur = Vec::new();
            proof {
                assert(split_lines(content@.take(i + 1)) =~~= lines_view(out@).push(cur@));
            }
        } else {
            cur.push(c);
            proof {
                let prev = split_lines(content@.take(i as int));
                assert(prev.update(prev.len() - 1, prev.last().push(c)) =~~= lines_view(
                    out@,
                ).push(cur@));
            }
        }
        i = i + 1;
    }
    proof {
        assert(content@.take(content@.len() as int) =~= content@);
    }
    out.push(cur);
    proof {
        assert(lines_view(out@) =~~= split_lines(content@));
    }
    out
}

/// Joins the lines with the line separator, the inverse of
/// `split_content`.
pub fn join_content(lines: &Vec<Vec<char>>) -> (r: Vec<char>)
    requires
        lines@.len() >= 1,
    ensures
        r@ == join_lines(lines_view(lines@)),
{
    let mut r: Vec<char> = Vec::new();
    r.extend_from_slice(lines[0].as_slice());
    let mut i: usize = 1;
    proof {
        assert(lines_view(lines@).take(1) =~~= seq![lines@[0]@]);
        assert(join_lines(lines_view(lines@).take(1)) == lines@[0]@);
    }
    while i < lines.len()
        invariant
            1 <= i <= lines@.len(),
            r@ == join_lines(lines_view(lines@).take(i as int)),
        decreases lines@.len() - i,
    {
        r.push('\n');
        r.extend_from_slice(lines[i].as_slice());
        proof {
            let pre = lines_view(lines@).take(i as int);
            assert(lines_view(lines@).take(i + 1) =~~= pre.push(lines@[i as int]@));
            lemma_join_lines_push(pre, lines@[i as int]@);
        }
        i = i + 1;
    }
    proof {
        assert(lines_view(lines@).take(lines@.len() as int) =~~= lines_view(lines@));
    }
    r
}

/// Character-for-character comparison of two lines of text.
pub fn chars_eq(a: &Vec<char>, b: &Vec<char>) -> (r: bool)
    ensures
        r <==> a@ == b@,
{
    if a.len() != b.len() {
        return false;
    }
    let mut i: usize = 0;
    while i < a.len()
        invariant
            i <= a@.len(),
            a@.len() == b@.len(),
            forall|j: int| 0 <= j < i ==> a@[j] == b@[j],
        decreases a@.len() - i,
    {
        if a[i] != b[i] {
            return false;
        }
        i = i + 1;
    }
    proof {
        assert(a@ =~= b@);
    }
    true
}

} // verus!
