//! The meaning of the generated string matcher.
//!
//! The `new` function emitted for a closed enum matches its input
//! against each literal in declaration order and takes the first match;
//! `as_str` maps a variant back to its exact literal.  [`first_match`]
//! is that matcher's meaning over the (identifier, literal) pairs, and
//! the lemmas below state how it behaves: a round trip from a variant's
//! literal finds that variant when the literals are distinct; an
//! undeclared string finds nothing; and of two variants declared with
//! the same literal, parsing yields the first-declared one.
use vstd::prelude::*;

use crate::enumstr::pairs_of;
use crate::text::text_eq;

verus! {

/// The index of the first pair whose literal is `s`, if any: what the
/// generated `new` returns on `s`.
pub open spec fn first_match(ps: Seq<(Seq<char>, Seq<char>)>, s: Seq<char>) -> Option<int>
    decreases ps.len(),
{
    if ps.len() == 0 {
        None
    } else if ps[0].1 == s {
        Some(0)
    } else {
        match first_match(ps.skip(1), s) {
            Some(i) => Some(i + 1),
            None => None,
        }
    }
}

/// The matcher finds nothing exactly on the strings no pair declares.
pub proof fn lemma_first_match_none(ps: Seq<(Seq<char>, Seq<char>)>, s: Seq<char>)
    ensures
        first_match(ps, s) is None <==> forall|j: int| 0 <= j < ps.len() ==> (#[trigger] ps[j]).1
            != s,
    decreases ps.len(),
{
    if ps.len() > 0 {
        lemma_first_match_none(ps.skip(1), s);
        if first_match(ps, s) is None {
            assert forall|j: int| 0 <= j < ps.len() implies (#[trigger] ps[j]).1 != s by {
                if j > 0 {
                    assert(ps.skip(1)[j - 1] == ps[j]);
                }
            }
        }
        if forall|j: int| 0 <= j < ps.len() ==> (#[trigger] ps[j]).1 != s {
            assert forall|j: int| 0 <= j < ps.skip(1).len() implies (#[trigger] ps.skip(1)[j]).1
                != s by {
                assert(ps.skip(1)[j] == ps[j + 1]);
            }
        }
    }
}

/// What a found index means: its pair declares `s`, and no earlier pair
/// does — of duplicate literals, the first-declared variant wins.
pub proof fn lemma_first_match_some(ps: Seq<(Seq<char>, Seq<char>)>, s: Seq<char>, i: int)
    requires
        first_match(ps, s) == Some(i),
    ensures
        0 <= i < ps.len(),
        ps[i].1 == s,
        forall|j: int| 0 <= j < i ==> (#[trigger] ps[j]).1 != s,
    decreases ps.len(),
{
    if ps.len() > 0 && ps[0].1 != s {
        let inner = first_match(ps.skip(1), s);
        assert(inner == Some(i - 1));
        lemma_first_match_some(ps.skip(1), s, i - 1);
        assert forall|j: int| 0 <= j < i implies (#[trigger] ps[j]).1 != s by {
            if j > 0 {
                assert(ps.skip(1)[j - 1] == ps[j]);
            }
        }
    }
}

/// The converse: a pair that declares `s`, with no earlier pair doing
/// so, is what the matcher finds.
pub proof fn lemma_first_match_at(ps: Seq<(Seq<char>, Seq<char>)>, s: Seq<char>, i: int)
    requires
        0 <= i < ps.len(),
        ps[i].1 == s,
        forall|j: int| 0 <= j < i ==> (#[trigger] ps[j]).1 != s,
    ensures
        first_match(ps, s) == Some(i),
    decreases ps.len(),
{
    if i > 0 {
        assert(forall|j: int| 0 <= j < ps.skip(1).len() ==> #[trigger] ps.skip(1)[j] == ps[j + 1]);
        lemma_first_match_at(ps.skip(1), s, i - 1);
    }
}

/// Round trip: when the declared literals are pairwise distinct,
/// parsing the literal of any variant yields exactly that variant.
pub proof fn lemma_round_trip(ps: Seq<(Seq<char>, Seq<char>)>, i: int)
    requires
        0 <= i < ps.len(),
        forall|j: int, k: int|
            0 <= j < ps.len() && 0 <= k < ps.len() && j != k ==> (#[trigger] ps[j]).1
                != (#[trigger] ps[k]).1,
    ensures
        first_match(ps, ps[i].1) == Some(i),
{
    lemma_first_match_at(ps, ps[i].1, i);
}

/// Tie break: parsing the literal of any variant yields the first
/// variant declared with that literal — an earlier or equal index,
/// never a miss.  Both duplicates still format to the same literal, so
/// each round-trips through that first-declared variant.
pub proof fn lemma_duplicate_tie_break(ps: Seq<(Seq<char>, Seq<char>)>, i: int)
    requires
        0 <= i < ps.len(),
    ensures
        first_match(ps, ps[i].1) matches Some(j) && 0 <= j <= i && ps[j].1 == ps[i].1,
{
    lemma_first_match_none(ps, ps[i].1);
    match first_match(ps, ps[i].1) {
        None => {
            assert(ps[i].1 == ps[i].1);
        },
        Some(j) => {
            lemma_first_match_some(ps, ps[i].1, j);
            if j > i {
                assert(ps[i].1 != ps[i].1);
            }
        },
    }
}

/// Run the matcher: the index of the first pair whose literal is `s`.
pub fn lookup(pairs: &Vec<(String, String)>, s: &str) -> (r: Option<usize>)
    ensures
        match r {
            Some(i) => first_match(pairs_of(pairs@), s@) == Some(i as int),
            None => first_match(pairs_of(pairs@), s@) is None,
        },
{
    let ghost ps = pairs_of(pairs@);
    let mut i: usize = 0;
    while i < pairs.len()
        invariant
            i <= pairs@.len(),
            ps == pairs_of(pairs@),
            forall|j: int| 0 <= j < i ==> (#[trigger] ps[j]).1 != s@,
        decreases pairs@.len() - i,
    {
        if text_eq(pairs[i].1.as_str(), s) {
            proof {
                lemma_first_match_at(ps, s@, i as int);
            }
            return Some(i);
        }
        i = i + 1;
    }
    proof {
        lemma_first_match_none(ps, s@);
    }
    None
}

} // verus!
