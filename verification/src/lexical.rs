//! Dictionary order on texts, by code point. It is the order in which a
//! manifest lists its dependencies.

use crate::text::chars_of;
use vstd::prelude::*;

verus! {

/// `a` and `b` agree before index `k`, and at `k` either `a` has ended while
/// `b` goes on, or `a` holds the smaller character.
pub open spec fn parts_at(a: Seq<char>, b: Seq<char>, k: int) -> bool {
    &&& 0 <= k <= a.len()
    &&& k < b.len()
    &&& forall|j: int| 0 <= j < k ==> a[j] == b[j]
    &&& (k == a.len() || (a[k] as u32) < (b[k] as u32))
}

/// `a` comes strictly before `b` in dictionary order.
pub open spec fn precedes(a: Seq<char>, b: Seq<char>) -> bool {
    exists|k: int| parts_at(a, b, k)
}

/// Of two texts, which comes first.
#[derive(Clone, Copy, Debug, PartialEq, Eq, Structural)]
pub enum Rank {
    Before,
    Same,
    After,
}

/// Where two texts part, they part at one index only.
pub proof fn lemma_parting_is_unique(a: Seq<char>, b: Seq<char>, k: int, m: int)
    requires
        parts_at(a, b, k) || parts_at(b, a, k),
        parts_at(a, b, m) || parts_at(b, a, m),
    ensures
        k == m,
{
    if k < m {
        assert(a[k] == b[k]);
    } else if m < k {
        assert(a[m] == b[m]);
    }
}

/// No text comes before itself, and of two texts at most one comes before
/// the other.
pub proof fn lemma_precedes_is_strict(a: Seq<char>, b: Seq<char>)
    ensures
        !precedes(a, a),
        !(precedes(a, b) && precedes(b, a)),
        precedes(a, b) ==> a != b,
{
    if precedes(a, a) {
        let k = choose|k: int| parts_at(a, a, k);
        assert(false);
    }
    if precedes(a, b) && precedes(b, a) {
        let k = choose|k: int| parts_at(a, b, k);
        let m = choose|m: int| parts_at(b, a, m);
        lemma_parting_is_unique(a, b, k, m);
        assert(false);
    }
}

/// Dictionary order is transitive.
pub proof fn lemma_precedes_is_transitive(a: Seq<char>, b: Seq<char>, c: Seq<char>)
    requires
        precedes(a, b),
        precedes(b, c),
    ensures
        precedes(a, c),
{
    let k = choose|k: int| parts_at(a, b, k);
    let m = choose|m: int| parts_at(b, c, m);
    if k <= m {
        if k < m {
            assert(b[k] == c[k]);
        }
        assert(parts_at(a, c, k));
    } else {
        assert(a[m] == b[m]);
        assert(parts_at(a, c, m));
    }
}

/// Two characters with the same code point are the same character.
proof fn lemma_code_points_tell_apart(x: char, y: char)
    ensures
        (x as u32) == (y as u32) ==> x == y,
{
    vstd::utf8::char_u32_cast(x, x as u32);
    vstd::utf8::char_u32_cast(y, y as u32);
}

/// Which of two texts comes first in dictionary order.
pub fn rank_text(a: &str, b: &str) -> (rank: Rank)
    ensures
        rank == Rank::Before <==> precedes(a@, b@),
        rank == Rank::Same <==> a@ == b@,
        rank == Rank::After <==> precedes(b@, a@),
{
    let a_chars = chars_of(a);
    let b_chars = chars_of(b);
    proof {
        lemma_precedes_is_strict(a@, b@);
        lemma_precedes_is_strict(b@, a@);
    }
    let mut k: usize = 0;
    while k < a_chars.len() && k < b_chars.len()
        invariant
            a_chars@ == a@,
            b_chars@ == b@,
            k <= a_chars.len(),
            k <= b_chars.len(),
            forall|j: int| 0 <= j < k ==> a@[j] == b@[j],
        decreases a_chars.len() - k,
    {
        let x: u32 = a_chars[k] as u32;
        let y: u32 = b_chars[k] as u32;
        proof {
            lemma_code_points_tell_apart(a@[k as int], b@[k as int]);
        }
        if x < y {
            assert(parts_at(a@, b@, k as int));
            return Rank::Before;
        }
        if y < x {
            assert(parts_at(b@, a@, k as int));
            return Rank::After;
        }
        k = k + 1;
    }
    if k < b_chars.len() {
        assert(parts_at(a@, b@, k as int));
        Rank::Before
    } else if k < a_chars.len() {
        assert(parts_at(b@, a@, k as int));
        Rank::After
    } else {
        assert(a@ =~= b@);
        Rank::Same
    }
}

} // verus!
