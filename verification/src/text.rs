//! Splitting text on a separator character and joining it back.
//!
//! The mathematical model is a pair of functions on `Seq<char>`, `split` and
//! `join`, together with the facts that make them inverses of each other. The
//! executable functions work on `str` and `String` and are specified by that
//! model.

use vstd::prelude::*;
use vstd::std_specs::iter::IteratorSpec;
use vstd::string::StringExecFns;

verus! {

/// No character of `s` is the separator.
pub open spec fn free_of(s: Seq<char>, sep: char) -> bool {
    forall|i: int| 0 <= i < s.len() ==> s[i] != sep
}

/// Every part is free of the separator.
pub open spec fn all_free_of(parts: Seq<Seq<char>>, sep: char) -> bool {
    forall|k: int| 0 <= k < parts.len() ==> free_of(#[trigger] parts[k], sep)
}

/// The segments of `s` between occurrences of `sep`, in order. There is always
/// at least one segment; two adjacent separators, or a separator at either end,
/// give an empty segment.
pub open spec fn split(s: Seq<char>, sep: char) -> Seq<Seq<char>>
    decreases s.len(),
{
    if s.len() == 0 {
        seq![Seq::<char>::empty()]
    } else {
        let before = split(s.drop_last(), sep);
        if s.last() == sep {
            before.push(Seq::<char>::empty())
        } else {
            before.drop_last().push(before.last().push(s.last()))
        }
    }
}

/// The parts written one after another with `sep` between neighbours.
pub open spec fn join(parts: Seq<Seq<char>>, sep: char) -> Seq<char>
    decreases parts.len(),
{
    if parts.len() == 0 {
        Seq::<char>::empty()
    } else if parts.len() == 1 {
        parts[0]
    } else {
        join(parts.drop_last(), sep).push(sep) + parts.last()
    }
}

/// The character sequences that a sequence of strings stands for.
pub open spec fn texts(parts: Seq<String>) -> Seq<Seq<char>> {
    parts.map_values(|p: String| p@)
}

/// The character sequences that a sequence of string slices stands for.
pub open spec fn slice_texts(parts: Seq<&str>) -> Seq<Seq<char>> {
    parts.map_values(|p: &str| p@)
}

/// A split never comes out empty.
pub proof fn lemma_split_nonempty(s: Seq<char>, sep: char)
    ensures
        split(s, sep).len() >= 1,
    decreases s.len(),
{
    if s.len() > 0 {
        lemma_split_nonempty(s.drop_last(), sep);
    }
}

/// No segment of a split holds the separator.
pub proof fn lemma_split_segments_free(s: Seq<char>, sep: char)
    ensures
        all_free_of(split(s, sep), sep),
    decreases s.len(),
{
    if s.len() > 0 {
        lemma_split_nonempty(s.drop_last(), sep);
        lemma_split_segments_free(s.drop_last(), sep);
    }
}

/// Joining the segments of a split gives the text back.
pub proof fn lemma_join_split(s: Seq<char>, sep: char)
    ensures
        join(split(s, sep), sep) == s,
    decreases s.len(),
{
    if s.len() > 0 {
        let before = split(s.drop_last(), sep);
        lemma_split_nonempty(s.drop_last(), sep);
        lemma_join_split(s.drop_last(), sep);
        if s.last() == sep {
            assert(before.push(Seq::<char>::empty()).drop_last() == before);
        } else {
            let grown = before.last().push(s.last());
            assert(before.drop_last().push(grown).drop_last() == before.drop_last());
            assert(s == s.drop_last().push(s.last()));
        }
    }
}

/// Appending separator-free text to `s` extends the last segment of its split.
pub proof fn lemma_split_append_free(s: Seq<char>, tail: Seq<char>, sep: char)
    requires
        free_of(tail, sep),
    ensures
        split(s, sep).len() >= 1,
        split(s + tail, sep) == split(s, sep).drop_last().push(split(s, sep).last() + tail),
    decreases tail.len(),
{
    lemma_split_nonempty(s, sep);
    if tail.len() > 0 {
        let last = split(s, sep).last();
        assert((s + tail).drop_last() == s + tail.drop_last());
        lemma_split_append_free(s, tail.drop_last(), sep);
        assert((last + tail.drop_last()).push(tail.last()) == last + tail);
    }
}

/// Splitting the join of separator-free parts gives the parts back.
pub proof fn lemma_split_join(parts: Seq<Seq<char>>, sep: char)
    requires
        parts.len() >= 1,
        all_free_of(parts, sep),
    ensures
        split(join(parts, sep), sep) == parts,
    decreases parts.len(),
{
    if parts.len() == 1 {
        lemma_split_append_free(Seq::<char>::empty(), parts[0], sep);
    } else {
        let front = parts.drop_last();
        assert(all_free_of(front, sep));
        lemma_split_join(front, sep);
        let stem = join(front, sep).push(sep);
        assert(stem.drop_last() == join(front, sep));
        lemma_split_append_free(stem, parts.last(), sep);
    }
}

/// The join of four parts, written out.
pub proof fn lemma_join_four(
    a: Seq<char>,
    b: Seq<char>,
    c: Seq<char>,
    d: Seq<char>,
    sep: char,
)
    ensures
        join(seq![a, b, c, d], sep) == a.push(sep) + b.push(sep) + c.push(sep) + d,
{
    let parts = seq![a, b, c, d];
    assert(parts.drop_last() == seq![a, b, c]);
    assert(seq![a, b, c].drop_last() == seq![a, b]);
    assert(seq![a, b].drop_last() == seq![a]);
    assert(join(seq![a], sep) == a);
    assert(join(seq![a, b], sep) == a.push(sep) + b);
    assert(join(seq![a, b, c], sep) == (a.push(sep) + b).push(sep) + c);
}

/// The join of five parts, written out.
pub proof fn lemma_join_five(
    a: Seq<char>,
    b: Seq<char>,
    c: Seq<char>,
    d: Seq<char>,
    e: Seq<char>,
    sep: char,
)
    ensures
        join(seq![a, b, c, d, e], sep) == a.push(sep) + b.push(sep) + c.push(sep) + d.push(sep)
            + e,
{
    let parts = seq![a, b, c, d, e];
    lemma_join_four(a, b, c, d, sep);
    assert(parts.drop_last() == seq![a, b, c, d]);
}

/// How many times `sep` occurs in `s`.
pub open spec fn occurrences(s: Seq<char>, sep: char) -> nat
    decreases s.len(),
{
    if s.len() == 0 {
        0
    } else {
        occurrences(s.drop_last(), sep) + if s.last() == sep {
            1nat
        } else {
            0nat
        }
    }
}

/// A split has one segment more than the text has separators.
pub proof fn lemma_split_len(s: Seq<char>, sep: char)
    ensures
        split(s, sep).len() == occurrences(s, sep) + 1,
    decreases s.len(),
{
    if s.len() > 0 {
        lemma_split_len(s.drop_last(), sep);
    }
}

/// Occurrences add up over concatenation.
pub proof fn lemma_occurrences_concat(a: Seq<char>, b: Seq<char>, sep: char)
    ensures
        occurrences(a + b, sep) == occurrences(a, sep) + occurrences(b, sep),
    decreases b.len(),
{
    if b.len() > 0 {
        assert((a + b).drop_last() == a + b.drop_last());
        lemma_occurrences_concat(a, b.drop_last(), sep);
    }
}

/// A text that is not free of the separator holds it at least once.
pub proof fn lemma_occurrences_positive(s: Seq<char>, sep: char)
    requires
        !free_of(s, sep),
    ensures
        occurrences(s, sep) >= 1,
    decreases s.len(),
{
    if s.len() > 0 && s.last() != sep {
        let i = choose|i: int| 0 <= i < s.len() && s[i] == sep;
        assert(s.drop_last()[i] == sep);
        lemma_occurrences_positive(s.drop_last(), sep);
    }
}

/// A join holds at least the separators that were put between its parts.
pub proof fn lemma_occurrences_of_join_min(parts: Seq<Seq<char>>, sep: char)
    requires
        parts.len() >= 1,
    ensures
        occurrences(join(parts, sep), sep) >= parts.len() - 1,
    decreases parts.len(),
{
    if parts.len() > 1 {
        let stem = join(parts.drop_last(), sep).push(sep);
        lemma_occurrences_of_join_min(parts.drop_last(), sep);
        assert(stem.drop_last() == join(parts.drop_last(), sep));
        lemma_occurrences_concat(stem, parts.last(), sep);
    }
}

/// Where one of the parts holds the separator, their join holds more
/// separators than were put between the parts.
pub proof fn lemma_occurrences_of_join(parts: Seq<Seq<char>>, sep: char, k: int)
    requires
        0 <= k < parts.len(),
        !free_of(parts[k], sep),
    ensures
        occurrences(join(parts, sep), sep) >= parts.len(),
    decreases parts.len(),
{
    if parts.len() == 1 {
        lemma_occurrences_positive(parts[0], sep);
    } else {
        let stem = join(parts.drop_last(), sep).push(sep);
        assert(stem.drop_last() == join(parts.drop_last(), sep));
        lemma_occurrences_concat(stem, parts.last(), sep);
        if k == parts.len() - 1 {
            lemma_occurrences_of_join_min(parts.drop_last(), sep);
            lemma_occurrences_positive(parts.last(), sep);
        } else {
            lemma_occurrences_of_join(parts.drop_last(), sep, k);
        }
    }
}

/// A text has at least as many segments as any of its prefixes.
pub proof fn lemma_split_len_prefix(s: Seq<char>, sep: char, i: int)
    requires
        0 <= i <= s.len(),
    ensures
        split(s.take(i), sep).len() <= split(s, sep).len(),
{
    lemma_split_len(s, sep);
    lemma_split_len(s.take(i), sep);
    lemma_occurrences_concat(s.take(i), s.skip(i), sep);
    assert(s.take(i) + s.skip(i) == s);
}

/// Splits `s` at every occurrence of `sep`, unless that gives more than
/// `limit` segments.
///
/// Each segment is cut out of `s` by its position, which walks `s` from its
/// start, so the cost grows with the length of `s` times `limit`.
pub fn split_up_to(s: &str, sep: char, limit: usize) -> (r: Option<Vec<String>>)
    ensures
        match r {
            Some(parts) => texts(parts@) == split(s@, sep) && parts@.len() <= limit,
            None => split(s@, sep).len() > limit,
        },
{
    if limit == 0 {
        proof {
            lemma_split_nonempty(s@, sep);
        }
        return None;
    }
    let n = s.unicode_len();
    let mut parts: Vec<String> = Vec::new();
    let mut start: usize = 0;
    let mut i: usize = 0;
    proof {
        assert(s@.subrange(0, 0) == Seq::<char>::empty());
    }
    let chars = s.chars();
    for c in it: chars
        invariant
            it.seq() == s@,
            n == s@.len(),
            i == it.index(),
            start <= i <= n,
            parts@.len() < limit,
            texts(parts@).push(s@.subrange(start as int, i as int)) == split(
                s@.take(i as int),
                sep,
            ),
    {
        let ghost open = s@.subrange(start as int, i as int);
        proof {
            assert(s@.take(i + 1).drop_last() == s@.take(i as int));
        }
        if c == sep {
            if parts.len() + 1 == limit {
                proof {
                    lemma_split_len_prefix(s@, sep, i + 1);
                }
                return None;
            }
            let part = s.substring_char(start, i).to_owned();
            proof {
                assert(s@.subrange(i + 1, i + 1) == Seq::<char>::empty());
            }
            parts.push(part);
            start = i + 1;
        } else {
            proof {
                assert(open.push(c) == s@.subrange(start as int, i + 1));
            }
        }
        i = i + 1;
    }
    let part = s.substring_char(start, n).to_owned();
    proof {
        assert(s@.take(n as int) == s@);
    }
    parts.push(part);
    Some(parts)
}

/// Writes the parts one after another with the one character of `sep`
/// between neighbours.
pub(crate) fn join_text(parts: &[&str], sep: &str) -> (s: String)
    requires
        sep@.len() == 1,
    ensures
        s@ == join(slice_texts(parts@), sep@[0]),
{
    let mut out = String::new();
    let n = parts.len();
    let mut i: usize = 0;
    while i < n
        invariant
            n == parts@.len(),
            i <= n,
            sep@.len() == 1,
            out@ == join(slice_texts(parts@).take(i as int), sep@[0]),
        decreases n - i,
    {
        proof {
            let done = slice_texts(parts@).take(i as int);
            assert(slice_texts(parts@).take(i + 1).drop_last() == done);
        }
        if i > 0 {
            out.append(sep);
        }
        out.append(parts[i]);
        i = i + 1;
    }
    proof {
        assert(slice_texts(parts@).take(n as int) == slice_texts(parts@));
    }
    out
}

/// Whether two strings hold the same characters.
pub fn same_text(a: &str, b: &str) -> (same: bool)
    ensures
        same == (a@ == b@),
{
    let mut rest = b.chars();
    let chars = a.chars();
    for c in it: chars
        invariant
            it.seq() == a@,
            it.index() <= b@.len(),
            rest.remaining() == b@.skip(it.index()),
            a@.take(it.index()) == b@.take(it.index()),
    {
        match rest.next() {
            Some(d) => {
                if c != d {
                    return false;
                }
            },
            None => {
                return false;
            },
        }
    }
    proof {
        assert(a@.take(a@.len() as int) == a@);
    }
    let last = rest.next();
    proof {
        if last is None {
            assert(b@.take(b@.len() as int) == b@);
        }
    }
    last.is_none()
}

} // verus!
