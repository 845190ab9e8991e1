//! Splitting text: into lines, into words, and into the fields that a
//! separator character marks off.

use crate::text::{
    find_char, index_of, lemma_run_len_stops, non_space, run_len, skip_spaces, skip_word,
    slice_chars, space,
};
use vstd::prelude::*;

verus! {

/// The character sequences that a list of character vectors holds.
pub open spec fn views(r: Seq<Vec<char>>) -> Seq<Seq<char>> {
    Seq::new(r.len(), |i: int| r[i]@)
}

/// `s` without one carriage return at its end.
pub open spec fn strip_cr(s: Seq<char>) -> Seq<char> {
    if s.len() > 0 && s.last() == '\r' {
        s.drop_last()
    } else {
        s
    }
}

/// The lines of `s`. A line ends at a line feed, and a carriage return just
/// before that line feed is not part of the line. Text after the last line
/// feed is a line of its own, unless it is empty.
pub open spec fn lines(s: Seq<char>) -> Seq<Seq<char>>
    decreases s.len(),
{
    if s.len() == 0 {
        Seq::empty()
    } else {
        let k = index_of(s, '\n') as int;
        if k >= s.len() {
            seq![s]
        } else {
            seq![strip_cr(s.take(k))] + lines(s.skip(k + 1))
        }
    }
}

/// The words of `s`: its longest runs of characters that are not white
/// space, in order.
pub open spec fn words(s: Seq<char>) -> Seq<Seq<char>>
    decreases s.len(),
{
    let start = run_len(s, space()) as int;
    let len = run_len(s.skip(start), non_space()) as int;
    if start >= s.len() || len == 0 {
        Seq::empty()
    } else {
        proof {
            lemma_run_len_stops(s.skip(start), non_space());
        }
        seq![s.subrange(start, start + len)] + words(s.skip(start + len))
    }
}

/// The field of index `n` when `s` is cut at every `sep`: field 0 runs to
/// the first `sep`, field 1 from there to the second, and so on. There is no
/// field `n` when `s` holds fewer than `n` separators.
pub open spec fn field(s: Seq<char>, sep: char, n: nat) -> Option<Seq<char>>
    decreases n,
{
    let k = index_of(s, sep) as int;
    if n == 0 {
        Some(s.take(k))
    } else if k >= s.len() {
        None
    } else {
        field(s.skip(k + 1), sep, (n - 1) as nat)
    }
}

/// The lines of `v`.
pub fn split_lines(v: &Vec<char>) -> (r: Vec<Vec<char>>)
    ensures
        views(r@) == lines(v@),
{
    let mut r: Vec<Vec<char>> = Vec::new();
    let mut pos: usize = 0;
    assert(v@.skip(0) =~= v@);
    assert(views(r@) + lines(v@.skip(0)) =~= lines(v@));
    while pos < v.len()
        invariant
            pos <= v.len(),
            views(r@) + lines(v@.skip(pos as int)) == lines(v@),
        decreases v.len() - pos,
    {
        let ghost rest = v@.skip(pos as int);
        let ghost before = views(r@);
        let k = find_char(v, pos, '\n');
        if k >= v.len() {
            let line = slice_chars(v, pos, v.len());
            r.push(line);
            proof {
                assert(line@ =~= rest);
                assert(v@.skip(v.len() as int).len() == 0);
                assert(views(r@) =~= before + seq![rest]);
                assert(views(r@) + lines(v@.skip(v.len() as int)) =~= before + lines(rest));
            }
            pos = v.len();
        } else {
            let end: usize = if k > pos && v[k - 1] == '\r' {
                k - 1
            } else {
                k
            };
            let line = slice_chars(v, pos, end);
            r.push(line);
            proof {
                let head = rest.take(k - pos);
                assert(head =~= v@.subrange(pos as int, k as int));
                assert(line@ =~= strip_cr(head));
                assert(rest.skip(k - pos + 1) =~= v@.skip(k + 1));
                assert(views(r@) =~= before + seq![strip_cr(head)]);
                assert(views(r@) + lines(v@.skip(k + 1)) =~= before + lines(rest));
            }
            pos = k + 1;
        }
    }
    assert(views(r@) + lines(v@.skip(pos as int)) =~= views(r@));
    r
}

/// The words of `v`.
pub fn split_words(v: &Vec<char>) -> (r: Vec<Vec<char>>)
    ensures
        views(r@) == words(v@),
{
    let mut r: Vec<Vec<char>> = Vec::new();
    let mut pos: usize = 0;
    assert(v@.skip(0) =~= v@);
    assert(views(r@) + words(v@.skip(0)) =~= words(v@));
    loop
        invariant
            pos <= v.len(),
            views(r@) + words(v@.skip(pos as int)) == words(v@),
        ensures
            views(r@) == words(v@),
        decreases v.len() - pos,
    {
        let ghost rest = v@.skip(pos as int);
        let ghost before = views(r@);
        let start = skip_spaces(v, pos);
        let end = skip_word(v, start);
        proof {
            assert(rest.skip(start - pos) =~= v@.skip(start as int));
        }
        if start >= v.len() || end == start {
            assert(views(r@) + words(rest) =~= views(r@));
            break;
        }
        let word = slice_chars(v, start, end);
        r.push(word);
        proof {
            assert(word@ =~= rest.subrange(start - pos, end - pos));
            assert(rest.skip(end - pos) =~= v@.skip(end as int));
            assert(views(r@) =~= before + seq![word@]);
            assert(views(r@) + words(v@.skip(end as int)) =~= before + words(rest));
        }
        pos = end;
    }
    r
}

/// The field of index `n` when `v` is cut at every `sep`, if there is one.
pub fn nth_field(v: &Vec<char>, sep: char, n: usize) -> (r: Option<Vec<char>>)
    ensures
        match r {
            Some(f) => field(v@, sep, n as nat) == Some(f@),
            None => field(v@, sep, n as nat) is None,
        },
{
    let mut pos: usize = 0;
    let mut left: usize = n;
    assert(v@.skip(0) =~= v@);
    while left > 0
        invariant
            pos <= v.len(),
            field(v@.skip(pos as int), sep, left as nat) == field(v@, sep, n as nat),
        decreases left,
    {
        let ghost rest = v@.skip(pos as int);
        let k = find_char(v, pos, sep);
        if k >= v.len() {
            return None;
        }
        proof {
            assert(rest.skip(k - pos + 1) =~= v@.skip(k + 1));
        }
        pos = k + 1;
        left -= 1;
    }
    let k = find_char(v, pos, sep);
    let f = slice_chars(v, pos, k);
    assert(f@ =~= v@.skip(pos as int).take(k - pos));
    Some(f)
}

} // verus!
