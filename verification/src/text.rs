//! Character-level text handling shared by the form parsers and the
//! message builders: conversion between strings and character vectors,
//! splitting on a separator, and replacing characters.

use vstd::prelude::*;

verus! {

broadcast use vstd::string::group_string_axioms;

/// The pieces of `s` between occurrences of `sep`, in order. There is
/// always at least one piece; two adjacent separators give an empty piece.
pub open spec fn split_spec(s: Seq<char>, sep: char) -> Seq<Seq<char>>
    decreases s.len(),
{
    if s.len() == 0 {
        seq![Seq::<char>::empty()]
    } else {
        let init = split_spec(s.drop_last(), sep);
        if s.last() == sep {
            init.push(Seq::<char>::empty())
        } else {
            init.update(init.len() - 1, init.last().push(s.last()))
        }
    }
}

/// The pieces of `parts` written one after another with `sep` between them.
pub open spec fn join_spec(parts: Seq<Seq<char>>, sep: char) -> Seq<char>
    decreases parts.len(),
{
    if parts.len() == 0 {
        Seq::<char>::empty()
    } else if parts.len() == 1 {
        parts[0]
    } else {
        join_spec(parts.drop_last(), sep).push(sep) + parts.last()
    }
}

/// `s` with every occurrence of `from` replaced by `to`.
pub open spec fn replace_spec(s: Seq<char>, from: char, to: char) -> Seq<char> {
    s.map_values(|c: char| if c == from { to } else { c })
}

/// Splitting never yields an empty list of pieces, and no piece holds the separator.
pub proof fn lemma_split_pieces(s: Seq<char>, sep: char)
    ensures
        split_spec(s, sep).len() >= 1,
        forall|i: int, j: int|
            0 <= i < split_spec(s, sep).len() && 0 <= j < split_spec(s, sep)[i].len()
                ==> split_spec(s, sep)[i][j] != sep,
    decreases s.len(),
{
    if s.len() > 0 {
        lemma_split_pieces(s.drop_last(), sep);
        let init = split_spec(s.drop_last(), sep);
        if s.last() != sep {
            let out = split_spec(s, sep);
            assert forall|i: int, j: int| 0 <= i < out.len() && 0 <= j < out[i].len()
                implies out[i][j] != sep by {
                if i == init.len() - 1 {
                    if j < init.last().len() {
                        assert(out[i][j] == init[i][j]);
                    }
                } else {
                    assert(out[i] == init[i]);
                }
            }
        }
    }
}

proof fn lemma_join_push_last(parts: Seq<Seq<char>>, sep: char, c: char)
    requires
        parts.len() >= 1,
    ensures
        join_spec(parts.update(parts.len() - 1, parts.last().push(c)), sep)
            == join_spec(parts, sep).push(c),
{
    let upd = parts.update(parts.len() - 1, parts.last().push(c));
    if parts.len() == 1 {
        assert(upd[0] == parts[0].push(c));
    } else {
        assert(upd.drop_last() =~= parts.drop_last());
        assert(upd.last() == parts.last().push(c));
        assert(join_spec(upd, sep) == join_spec(parts.drop_last(), sep).push(sep) + parts.last().push(c));
        assert(join_spec(parts.drop_last(), sep).push(sep) + parts.last().push(c)
            =~= (join_spec(parts.drop_last(), sep).push(sep) + parts.last()).push(c));
    }
}

/// Joining the pieces of a split with the same separator gives back the text.
pub proof fn lemma_split_join_roundtrip(s: Seq<char>, sep: char)
    ensures
        join_spec(split_spec(s, sep), sep) == s,
    decreases s.len(),
{
    if s.len() == 0 {
        assert(join_spec(split_spec(s, sep), sep) =~= s);
    } else {
        lemma_split_join_roundtrip(s.drop_last(), sep);
        lemma_split_pieces(s.drop_last(), sep);
        let init = split_spec(s.drop_last(), sep);
        if s.last() == sep {
            let out = init.push(Seq::<char>::empty());
            assert(out.drop_last() =~= init);
            assert(join_spec(out, sep) =~= s.drop_last().push(sep));
            assert(s.drop_last().push(sep) =~= s);
        } else {
            lemma_join_push_last(init, sep, s.last());
            assert(s.drop_last().push(s.last()) =~= s);
        }
    }
}

/// Collects the characters of `s`, in order.
pub fn chars_of(s: &str) -> (v: Vec<char>)
    ensures
        v@ == s@,
{
    let mut v: Vec<char> = Vec::new();
    for c in it: s.chars()
        invariant
            it.seq() == s@,
            v@ == it.seq().take(it.index() as int),
    {
        v.push(c);
    }
    v
}

/// std's `String::push`: appends one character to the end of the string.
#[verifier::external_body]
pub(crate) fn push_char(s: &mut String, c: char)
    ensures
        final(s)@ == old(s)@.push(c),
{
    s.push(c);
}

/// Builds a string holding exactly the characters of `v`.
pub(crate) fn string_from_chars(v: &Vec<char>) -> (s: String)
    ensures
        s@ == v@,
{
    let mut s = String::new();
    let mut i: usize = 0;
    while i < v.len()
        invariant
            i <= v.len(),
            s@ == v@.take(i as int),
        decreases v.len() - i,
    {
        push_char(&mut s, v[i]);
        assert(v@.take(i as int).push(v[i as int]) =~= v@.take(i + 1));
        i = i + 1;
    }
    assert(v@.take(v.len() as int) =~= v@);
    s
}

/// Whether the two texts hold the same characters.
pub fn text_eq(a: &str, b: &str) -> (res: bool)
    ensures
        res == (a@ == b@),
{
    let x = chars_of(a);
    let y = chars_of(b);
    if x.len() != y.len() {
        return false;
    }
    let mut i: usize = 0;
    while i < x.len()
        invariant
            x@ == a@,
            y@ == b@,
            x.len() == y.len(),
            i <= x.len(),
            forall|k: int| 0 <= k < i ==> x@[k] == y@[k],
        decreases x.len() - i,
    {
        if x[i] != y[i] {
            return false;
        }
        i = i + 1;
    }
    assert(x@ =~= y@);
    true
}

/// The pieces of `s` between occurrences of `sep`, like `str::split` with a
/// character pattern.
pub fn split_on(s: &str, sep: char) -> (parts: Vec<String>)
    ensures
        parts.len() == split_spec(s@, sep).len(),
        forall|i: int| 0 <= i < parts.len() ==> #[trigger] parts[i]@ == split_spec(s@, sep)[i],
{
    let chars = chars_of(s);
    let mut parts: Vec<String> = Vec::new();
    let mut cur: Vec<char> = Vec::new();
    let ghost mut views: Seq<Seq<char>> = Seq::empty();
    let mut i: usize = 0;
    while i < chars.len()
        invariant
            chars@ == s@,
            i <= chars.len(),
            parts.len() == views.len(),
            forall|k: int| 0 <= k < parts.len() ==> #[trigger] parts[k]@ == views[k],
            views.push(cur@) == split_spec(s@.take(i as int), sep),
        decreases chars.len() - i,
    {
        let c = chars[i];
        proof {
            assert(s@.take(i + 1).drop_last() =~= s@.take(i as int));
            assert(s@.take(i + 1).last() == c);
        }
        if c == sep {
            let piece = string_from_chars(&cur);
            parts.push(piece);
            proof {
                views = views.push(cur@);
            }
            cur = Vec::new();
            assert(views.push(cur@) =~= split_spec(s@.take(i as int), sep).push(Seq::<char>::empty()));
        } else {
            let ghost before = cur@;
            cur.push(c);
            proof {
                let init = split_spec(s@.take(i as int), sep);
                assert(init.len() - 1 == views.len());
                assert(views.push(cur@) =~= init.update(init.len() - 1, init.last().push(c)));
            }
        }
        i = i + 1;
    }
    let piece = string_from_chars(&cur);
    parts.push(piece);
    proof {
        assert(s@.take(chars.len() as int) =~= s@);
        views = views.push(cur@);
    }
    parts
}

/// `s` with every occurrence of `from` replaced by `to`, like `str::replace`
/// with single-character pattern and replacement.
pub fn replace_char(s: &str, from: char, to: char) -> (res: String)
    ensures
        res@ == replace_spec(s@, from, to),
{
    let chars = chars_of(s);
    let mut out: Vec<char> = Vec::new();
    let mut i: usize = 0;
    while i < chars.len()
        invariant
            chars@ == s@,
            i <= chars.len(),
            out@ == replace_spec(s@.take(i as int), from, to),
        decreases chars.len() - i,
    {
        let c = chars[i];
        if c == from {
            out.push(to);
        } else {
            out.push(c);
        }
        assert(out@ =~= replace_spec(s@.take(i + 1), from, to));
        i = i + 1;
    }
    assert(s@.take(chars.len() as int) =~= s@);
    string_from_chars(&out)
}

/// `a` followed by `b`.
pub fn concatenate(a: &str, b: &str) -> (res: String)
    ensures
        res@ == a@ + b@,
{
    let mut s = String::from_str(a);
    s.append(b);
    s
}

} // verus!
