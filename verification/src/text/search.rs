//! Finding a pattern in a text and splitting a text on a separator.

use vstd::prelude::*;

verus! {

/// `pat` occurs in `s` at index `i`.
pub open spec fn matches_at(s: Seq<char>, pat: Seq<char>, i: int) -> bool {
    &&& 0 <= i
    &&& i + pat.len() <= s.len()
    &&& s.subrange(i, i + pat.len()) == pat
}

/// `pat` occurs somewhere in `s`.
pub open spec fn has_match(s: Seq<char>, pat: Seq<char>) -> bool {
    exists|i: int| matches_at(s, pat, i)
}

/// `i` is the leftmost index at which `pat` occurs in `s`.
pub open spec fn is_first_match(s: Seq<char>, pat: Seq<char>, i: int) -> bool {
    &&& matches_at(s, pat, i)
    &&& forall|j: int| 0 <= j < i ==> !matches_at(s, pat, j)
}

/// The leftmost index at which `pat` occurs in `s`; meaningful only when
/// `has_match(s, pat)`.
pub open spec fn first_match(s: Seq<char>, pat: Seq<char>) -> int {
    choose|i: int| is_first_match(s, pat, i)
}

/// The pieces of `s` between successive leftmost occurrences of `sep`, in
/// order. A text without the separator is a single piece; an empty separator
/// splits nothing.
pub open spec fn split(s: Seq<char>, sep: Seq<char>) -> Seq<Seq<char>>
    decreases s.len(),
    via split_decreases
{
    if sep.len() > 0 && has_match(s, sep) {
        let i = first_match(s, sep);
        seq![s.subrange(0, i)] + split(s.subrange(i + sep.len(), s.len() as int), sep)
    } else {
        seq![s]
    }
}

#[via_fn]
proof fn split_decreases(s: Seq<char>, sep: Seq<char>) {
    if sep.len() > 0 && has_match(s, sep) {
        lemma_first_match_exists(s, sep);
    }
}

/// Below any occurrence there is a leftmost one.
proof fn lemma_least_match(s: Seq<char>, pat: Seq<char>, i: int)
    requires
        matches_at(s, pat, i),
    ensures
        exists|k: int| is_first_match(s, pat, k),
    decreases i,
{
    if exists|j: int| 0 <= j < i && matches_at(s, pat, j) {
        let j = choose|j: int| 0 <= j < i && matches_at(s, pat, j);
        lemma_least_match(s, pat, j);
    } else {
        assert(is_first_match(s, pat, i));
    }
}

/// Where the pattern occurs, `first_match` is its leftmost occurrence.
pub proof fn lemma_first_match_exists(s: Seq<char>, pat: Seq<char>)
    requires
        has_match(s, pat),
    ensures
        is_first_match(s, pat, first_match(s, pat)),
{
    let i = choose|i: int| matches_at(s, pat, i);
    lemma_least_match(s, pat, i);
}

/// The leftmost occurrence is unique.
pub proof fn lemma_first_match_unique(s: Seq<char>, pat: Seq<char>, i: int)
    requires
        is_first_match(s, pat, i),
    ensures
        has_match(s, pat),
        first_match(s, pat) == i,
{
    lemma_first_match_exists(s, pat);
}

/// A text in which the separator occurs splits at its leftmost occurrence:
/// the first piece is what stands before it, the others are the pieces of
/// what stands after it.
pub proof fn lemma_split_at_first_match(s: Seq<char>, sep: Seq<char>, i: int)
    requires
        sep.len() > 0,
        is_first_match(s, sep, i),
    ensures
        split(s, sep) == seq![s.subrange(0, i)] + split(
            s.subrange(i + sep.len(), s.len() as int),
            sep,
        ),
{
    lemma_first_match_unique(s, sep, i);
}

/// A text in which the separator does not occur is a single piece.
pub proof fn lemma_split_without_match(s: Seq<char>, sep: Seq<char>)
    requires
        !has_match(s, sep),
    ensures
        split(s, sep) == seq![s],
{
}

/// The first piece of a text is what stands before the leftmost separator,
/// or the whole text. There is a second piece exactly when the separator
/// occurs.
pub proof fn lemma_split_first_piece(s: Seq<char>, sep: Seq<char>)
    requires
        sep.len() > 0,
    ensures
        split(s, sep).len() >= 1,
        split(s, sep).len() >= 2 <==> has_match(s, sep),
        split(s, sep)[0] == if has_match(s, sep) {
            s.subrange(0, first_match(s, sep))
        } else {
            s
        },
        has_match(s, sep) ==> split(s, sep)[1] == split(
            s.subrange(first_match(s, sep) + sep.len(), s.len() as int),
            sep,
        )[0],
{
    if has_match(s, sep) {
        lemma_first_match_exists(s, sep);
        let i = first_match(s, sep);
        let rest = s.subrange(i + sep.len(), s.len() as int);
        lemma_split_is_not_empty(rest, sep);
    }
}

/// Every text has at least one piece.
proof fn lemma_split_is_not_empty(s: Seq<char>, sep: Seq<char>)
    ensures
        split(s, sep).len() >= 1,
{
    if sep.len() > 0 && has_match(s, sep) {
        lemma_first_match_exists(s, sep);
    }
}

/// The character `c` does not occur in `s`.
pub open spec fn free_of(s: Seq<char>, c: char) -> bool {
    forall|i: int| 0 <= i < s.len() ==> s[i] != c
}

/// A text is free of a character exactly when its two halves are.
pub proof fn lemma_free_of_concat(a: Seq<char>, b: Seq<char>, c: char)
    ensures
        free_of(a + b, c) <==> free_of(a, c) && free_of(b, c),
{
    if free_of(a + b, c) {
        assert forall|i: int| 0 <= i < a.len() implies a[i] != c by {
            assert((a + b)[i] == a[i]);
        }
        assert forall|i: int| 0 <= i < b.len() implies b[i] != c by {
            assert((a + b)[a.len() + i] == b[i]);
        }
    }
}

/// A pattern does not occur in a text that is free of its first character.
pub proof fn lemma_no_match_when_free(s: Seq<char>, pat: Seq<char>)
    requires
        pat.len() > 0,
        free_of(s, pat[0]),
    ensures
        !has_match(s, pat),
{
    assert forall|i: int| !matches_at(s, pat, i) by {
        if matches_at(s, pat, i) {
            assert(s.subrange(i, i + pat.len())[0] == pat[0]);
        }
    }
}

/// Behind a text that is free of the first character of a pattern, the
/// pattern occurs first where that text ends.
pub proof fn lemma_first_match_after(a: Seq<char>, pat: Seq<char>, b: Seq<char>)
    requires
        pat.len() > 0,
        free_of(a, pat[0]),
    ensures
        is_first_match(a + pat + b, pat, a.len() as int),
{
    let s = a + pat + b;
    assert(s.subrange(a.len() as int, (a.len() + pat.len()) as int) =~= pat);
    assert forall|j: int| 0 <= j < a.len() implies !matches_at(s, pat, j) by {
        if matches_at(s, pat, j) {
            assert(s.subrange(j, j + pat.len())[0] == pat[0]);
        }
    }
}

/// A piece that is free of the first character of the separator, then the
/// separator, then more text: the pieces are that piece and the pieces of
/// the rest.
pub proof fn lemma_split_cons(a: Seq<char>, sep: Seq<char>, b: Seq<char>)
    requires
        sep.len() > 0,
        free_of(a, sep[0]),
    ensures
        split(a + sep + b, sep) == seq![a] + split(b, sep),
{
    let s = a + sep + b;
    lemma_first_match_after(a, sep, b);
    lemma_split_at_first_match(s, sep, a.len() as int);
    assert(s.subrange(0, a.len() as int) =~= a);
    assert(s.subrange((a.len() + sep.len()) as int, s.len() as int) =~= b);
}

/// Whether `pat` occurs in `s` at index `i`.
pub fn occurs_at(s: &[char], pat: &[char], i: usize) -> (b: bool)
    ensures
        b == matches_at(s@, pat@, i as int),
{
    let n: usize = s.len();
    let m: usize = pat.len();
    if i > n || m > n - i {
        return false;
    }
    let mut k: usize = 0;
    while k < m
        invariant
            n == s.len(),
            m == pat.len(),
            i + m <= n,
            k <= m,
            forall|j: int| 0 <= j < k ==> s@[i + j] == pat@[j],
        decreases m - k,
    {
        if s[i + k] != pat[k] {
            return false;
        }
        k += 1;
    }
    assert(s@.subrange(i as int, i + m) =~= pat@);
    true
}

/// The leftmost index at which `pat` occurs in `s`, if it occurs at all.
pub fn find(s: &[char], pat: &[char]) -> (r: Option<usize>)
    ensures
        match r {
            Some(i) => is_first_match(s@, pat@, i as int),
            None => !has_match(s@, pat@),
        },
{
    let n: usize = s.len();
    let m: usize = pat.len();
    if m > n {
        return None;
    }
    let last: usize = n - m;
    let mut i: usize = 0;
    while i < last
        invariant
            n == s.len(),
            m == pat.len(),
            last == n - m,
            i <= last,
            forall|j: int| 0 <= j < i ==> !matches_at(s@, pat@, j),
        decreases last - i,
    {
        if occurs_at(s, pat, i) {
            return Some(i);
        }
        i += 1;
    }
    if occurs_at(s, pat, last) {
        Some(last)
    } else {
        None
    }
}

} // verus!
