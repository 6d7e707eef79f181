//! Text as sequences of characters: searching, splitting and joining.
//!
//! Everything the rest of the library says about strings is said over
//! `Seq<char>`, the view of `str` and `String`. This module holds the few
//! notions that those statements are built from, together with executable
//! functions that compute them.

use vstd::prelude::*;

verus! {

/// `pat` stands in `s` at index `i`.
pub open spec fn occurs_at(s: Seq<char>, pat: Seq<char>, i: int) -> bool {
    &&& 0 <= i
    &&& i + pat.len() <= s.len()
    &&& s.subrange(i, i + pat.len()) == pat
}

/// `pat` stands somewhere in `s`.
pub open spec fn occurs_in(s: Seq<char>, pat: Seq<char>) -> bool {
    exists|i: int| occurs_at(s, pat, i)
}

/// `pat` stands in `s` at index `i`, and nowhere before.
pub open spec fn is_first_occurrence(s: Seq<char>, pat: Seq<char>, i: int) -> bool {
    &&& occurs_at(s, pat, i)
    &&& forall|j: int| 0 <= j < i ==> !occurs_at(s, pat, j)
}

/// The index at which `pat` first stands in `s`; meaningful only where
/// `occurs_in(s, pat)`.
pub open spec fn first_occurrence(s: Seq<char>, pat: Seq<char>) -> int {
    choose|i: int| is_first_occurrence(s, pat, i)
}

/// Where a pattern occurs at all, it has a first occurrence.
pub proof fn lemma_least_occurrence(s: Seq<char>, pat: Seq<char>, k: int)
    requires
        occurs_at(s, pat, k),
    ensures
        is_first_occurrence(s, pat, first_occurrence(s, pat)),
        first_occurrence(s, pat) <= k,
    decreases k,
{
    if exists|j: int| 0 <= j < k && occurs_at(s, pat, j) {
        let j = choose|j: int| 0 <= j < k && occurs_at(s, pat, j);
        lemma_least_occurrence(s, pat, j);
    } else {
        assert(is_first_occurrence(s, pat, k));
        lemma_first_occurrence(s, pat, k);
    }
}

/// There is at most one first occurrence, and `first_occurrence` names it.
pub proof fn lemma_first_occurrence(s: Seq<char>, pat: Seq<char>, i: int)
    requires
        is_first_occurrence(s, pat, i),
    ensures
        first_occurrence(s, pat) == i,
        occurs_in(s, pat),
{
    let k = first_occurrence(s, pat);
    assert(is_first_occurrence(s, pat, k));
    if k < i {
        assert(!occurs_at(s, pat, k));
    } else if i < k {
        assert(!occurs_at(s, pat, i));
    }
}

/// The pieces of `s` between occurrences of `sep`. A text without `sep` is
/// its own single piece; `n` occurrences always give `n + 1` pieces, some
/// of them possibly empty.
pub open spec fn split_on(s: Seq<char>, sep: char) -> Seq<Seq<char>>
    decreases s.len(),
{
    if s.len() == 0 {
        seq![Seq::<char>::empty()]
    } else {
        let before = split_on(s.drop_last(), sep);
        if s.last() == sep {
            before.push(Seq::<char>::empty())
        } else {
            before.drop_last().push(before.last().push(s.last()))
        }
    }
}

/// The pieces in order, with `sep` between each two neighbours.
pub open spec fn join_with(parts: Seq<Seq<char>>, sep: Seq<char>) -> Seq<char>
    decreases parts.len(),
{
    if parts.len() == 0 {
        Seq::<char>::empty()
    } else if parts.len() == 1 {
        parts[0]
    } else {
        join_with(parts.drop_last(), sep) + sep + parts.last()
    }
}

/// The view of an optional string.
pub open spec fn opt_text(s: Option<String>) -> Option<Seq<char>> {
    match s {
        Some(s) => Some(s@),
        None => None,
    }
}

/// The view of an optional string slice.
pub open spec fn option_text(s: Option<&str>) -> Option<Seq<char>> {
    match s {
        Some(s) => Some(s@),
        None => None,
    }
}

/// The views of a sequence of strings.
pub open spec fn texts(v: Seq<String>) -> Seq<Seq<char>> {
    Seq::new(v.len(), |i: int| v[i]@)
}

/// Splitting never yields an empty list of pieces.
pub proof fn lemma_split_nonempty(s: Seq<char>, sep: char)
    ensures
        split_on(s, sep).len() >= 1,
    decreases s.len(),
{
    if s.len() > 0 {
        lemma_split_nonempty(s.drop_last(), sep);
    }
}

/// A text without the separator splits into itself alone.
pub proof fn lemma_split_without_separator(s: Seq<char>, sep: char)
    requires
        !s.contains(sep),
    ensures
        split_on(s, sep) == seq![s],
    decreases s.len(),
{
    if s.len() == 0 {
        assert(s =~= Seq::<char>::empty());
    } else {
        let shorter = s.drop_last();
        assert forall|k: int| 0 <= k < shorter.len() implies shorter[k] != sep by {
            assert(s[k] == shorter[k]);
            assert(s.contains(s[k]));
        }
        lemma_split_without_separator(shorter, sep);
        assert(s.contains(s.last()));
        assert(shorter.push(s.last()) =~= s);
        assert(split_on(s, sep) =~= seq![s]);
    }
}

/// Joining what a split gave, with the same separator, restores the text.
pub proof fn lemma_join_of_split(s: Seq<char>, sep: char)
    ensures
        join_with(split_on(s, sep), seq![sep]) == s,
    decreases s.len(),
{
    let sep_text = seq![sep];
    if s.len() == 0 {
        assert(join_with(split_on(s, sep), sep_text) =~= s);
    } else {
        let shorter = s.drop_last();
        let before = split_on(shorter, sep);
        lemma_split_nonempty(shorter, sep);
        lemma_join_of_split(shorter, sep);
        if s.last() == sep {
            let now = before.push(Seq::<char>::empty());
            assert(now.drop_last() =~= before);
            assert(join_with(now, sep_text) =~= shorter + sep_text);
            assert(shorter + sep_text =~= s);
        } else {
            let grown = before.last().push(s.last());
            let now = before.drop_last().push(grown);
            assert(now.drop_last() =~= before.drop_last());
            if before.len() == 1 {
                assert(join_with(now, sep_text) =~= shorter.push(s.last()));
            } else {
                assert(join_with(now, sep_text) =~= (join_with(before.drop_last(), sep_text)
                    + sep_text + before.last()).push(s.last()));
            }
            assert(shorter.push(s.last()) =~= s);
        }
    }
}

/// The characters of `s`, in order.
pub fn chars_of(s: &str) -> (out: Vec<char>)
    ensures
        out@ == s@,
{
    let mut out: Vec<char> = Vec::new();
    for c in it: s.chars()
        invariant
            out@ == s@.subrange(0, it.index() as int),
            it.seq() == s@,
    {
        out.push(c);
    }
    out
}

/// Whether two strings hold the same characters.
pub fn same_text(a: &str, b: &str) -> (same: bool)
    ensures
        same == (a@ == b@),
{
    a.to_owned() == b.to_owned()
}

/// Whether `pat` stands in `s` at index `i`.
fn matches_at(s: &Vec<char>, pat: &Vec<char>, i: usize) -> (hit: bool)
    requires
        i + pat.len() <= s.len(),
    ensures
        hit == occurs_at(s@, pat@, i as int),
{
    let mut k: usize = 0;
    while k < pat.len()
        invariant
            k <= pat.len(),
            i + pat.len() <= s.len(),
            forall|j: int| 0 <= j < k ==> s@[i + j] == pat@[j],
        decreases pat.len() - k,
    {
        if s[i + k] != pat[k] {
            assert(s@.subrange(i as int, i + pat.len())[k as int] == s@[i + k]);
            return false;
        }
        k = k + 1;
    }
    assert(s@.subrange(i as int, i + pat.len()) =~= pat@);
    true
}

/// The first index at which `pat` stands in `s`, if it stands there at all.
pub fn find_chars(s: &Vec<char>, pat: &Vec<char>) -> (found: Option<usize>)
    ensures
        match found {
            Some(i) => is_first_occurrence(s@, pat@, i as int),
            None => !occurs_in(s@, pat@),
        },
{
    if pat.len() > s.len() {
        return None;
    }
    let last: usize = s.len() - pat.len();
    let mut i: usize = 0;
    loop
        invariant
            i <= last,
            last == s.len() - pat.len(),
            forall|j: int| 0 <= j < i ==> !occurs_at(s@, pat@, j),
        decreases last - i,
    {
        if matches_at(s, pat, i) {
            return Some(i);
        }
        if i == last {
            return None;
        }
        i = i + 1;
    }
}

/// The first index, counted in characters, at which `pat` stands in `s`.
pub fn find_text(s: &str, pat: &str) -> (found: Option<usize>)
    ensures
        match found {
            Some(i) => is_first_occurrence(s@, pat@, i as int),
            None => !occurs_in(s@, pat@),
        },
{
    let s_chars = chars_of(s);
    let pat_chars = chars_of(pat);
    find_chars(&s_chars, &pat_chars)
}

/// Whether `pat` stands somewhere in `s`.
pub fn contains_text(s: &str, pat: &str) -> (yes: bool)
    ensures
        yes == occurs_in(s@, pat@),
{
    find_text(s, pat).is_some()
}

/// The pieces of `s` between occurrences of `sep`, as owned strings.
pub fn split_text(s: &str, sep: char) -> (parts: Vec<String>)
    ensures
        texts(parts@) == split_on(s@, sep),
{
    let chars = chars_of(s);
    let n: usize = chars.len();
    let mut parts: Vec<String> = Vec::new();
    let mut start: usize = 0;
    let mut k: usize = 0;
    proof {
        assert(s@.take(0) =~= Seq::<char>::empty());
        assert(texts(parts@).push(s@.subrange(0, 0)) =~= split_on(s@.take(0), sep));
    }
    while k < n
        invariant
            chars@ == s@,
            n == s@.len(),
            start <= k <= n,
            texts(parts@).push(s@.subrange(start as int, k as int)) == split_on(
                s@.take(k as int),
                sep,
            ),
        decreases n - k,
    {
        let ghost before = split_on(s@.take(k as int), sep);
        proof {
            assert(s@.take(k + 1).drop_last() =~= s@.take(k as int));
            assert(s@.take(k + 1).last() == s@[k as int]);
        }
        if chars[k] == sep {
            let piece = s.substring_char(start, k).to_owned();
            let ghost old_parts = parts@;
            parts.push(piece);
            proof {
                assert(texts(parts@) =~= texts(old_parts).push(
                    s@.subrange(start as int, k as int),
                ));
            }
            start = k + 1;
            proof {
                assert(s@.subrange(start as int, k + 1) =~= Seq::<char>::empty());
            }
        } else {
            proof {
                assert(s@.subrange(start as int, k + 1) =~= s@.subrange(
                    start as int,
                    k as int,
                ).push(s@[k as int]));
                assert(before.drop_last() =~= texts(parts@));
            }
        }
        k = k + 1;
    }
    let piece = s.substring_char(start, n).to_owned();
    let ghost old_parts = parts@;
    parts.push(piece);
    proof {
        assert(s@.take(n as int) =~= s@);
        assert(texts(parts@) =~= texts(old_parts).push(s@.subrange(start as int, n as int)));
    }
    parts
}

/// The pieces in order, with `sep` between each two neighbours.
pub fn join_text(parts: &Vec<String>, sep: &str) -> (joined: String)
    ensures
        joined@ == join_with(texts(parts@), sep@),
{
    let mut joined = String::new();
    let mut i: usize = 0;
    while i < parts.len()
        invariant
            i <= parts.len(),
            joined@ == join_with(texts(parts@).take(i as int), sep@),
        decreases parts.len() - i,
    {
        let ghost so_far = texts(parts@).take(i as int);
        let ghost next = texts(parts@).take(i + 1);
        proof {
            assert(next.drop_last() =~= so_far);
            assert(next.last() == parts@[i as int]@);
        }
        if i > 0 {
            joined.append(sep);
        }
        joined.append(parts[i].as_str());
        proof {
            if i == 0 {
                assert(joined@ =~= next[0]);
            }
        }
        i = i + 1;
    }
    proof {
        assert(texts(parts@).take(parts.len() as int) =~= texts(parts@));
    }
    joined
}

} // verus!
