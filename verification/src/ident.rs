//! Deriving a type identifier from arbitrary string content.
//!
//! A literal is split on whitespace; tokens containing any character
//! that is neither alphanumeric nor an underscore are discarded; the
//! remaining tokens are rejoined with single spaces; and the result is
//! converted to upper camel case.  The derivation is a function of the literal alone, so
//! deriving twice from the same literal yields the same identifier.
use vstd::prelude::*;

use crate::text::{unicode_whitespace, unicode_alphanumeric, upper_camel_of, to_upper_camel};

verus! {

/// The end of the whitespace-free run that starts at `i`: the first
/// position at or after `i` holding whitespace, or the end of `s`.
pub open spec fn word_end_at(s: Seq<char>, i: int) -> int
    decreases s.len() - i,
{
    if i < 0 || i >= s.len() || unicode_whitespace(s[i]) {
        i
    } else {
        word_end_at(s, i + 1)
    }
}

/// Bounds of [`word_end_at`]: the run ends within `s`, and is nonempty
/// exactly when `i` holds a non-whitespace character.
pub proof fn lemma_word_end_at(s: Seq<char>, i: int)
    requires
        0 <= i <= s.len(),
    ensures
        i <= word_end_at(s, i) <= s.len(),
        i < s.len() && !unicode_whitespace(s[i]) ==> word_end_at(s, i) > i,
    decreases s.len() - i,
{
    if i < s.len() && !unicode_whitespace(s[i]) {
        lemma_word_end_at(s, i + 1);
    }
}

/// Whether `c` can stand in a kept token: alphanumeric, or an
/// underscore (a word separator the capitalization step folds away).
pub open spec fn word_char(c: char) -> bool {
    unicode_alphanumeric(c) || c == '_'
}

/// Whether every character of `w` can stand in a kept token.
pub open spec fn all_word_chars(w: Seq<char>) -> bool {
    forall|k: int| 0 <= k < w.len() ==> word_char(#[trigger] w[k])
}

/// The whitespace-split tokens of `s` from position `i` on, with the
/// tokens holding anything outside word characters discarded, rejoined
/// with single spaces.
pub open spec fn filtered_words(s: Seq<char>, i: int) -> Seq<char>
    decreases s.len() - i,
    via filtered_words_decreases
{
    if i < 0 || i >= s.len() {
        Seq::empty()
    } else if unicode_whitespace(s[i]) {
        filtered_words(s, i + 1)
    } else {
        let we = word_end_at(s, i);
        let w = s.subrange(i, we);
        let rest = filtered_words(s, we);
        if all_word_chars(w) {
            if rest.len() == 0 {
                w
            } else {
                w + seq![' '] + rest
            }
        } else {
            rest
        }
    }
}

#[via_fn]
proof fn filtered_words_decreases(s: Seq<char>, i: int) {
    if 0 <= i < s.len() && !unicode_whitespace(s[i]) {
        lemma_word_end_at(s, i);
    }
}

/// The identifier derived from the literal `s`: its filtered
/// whitespace-split tokens, rejoined and converted to upper camel case.
pub open spec fn derived_ident(s: Seq<char>) -> Seq<char> {
    upper_camel_of(filtered_words(s, 0))
}

/// Rejoin the kept tokens of `s` from position `i` on.
fn filtered_words_exec(s: &str, i: usize) -> (r: String)
    requires
        i <= s@.len(),
    ensures
        r@ == filtered_words(s@, i as int),
    decreases s@.len() - i,
{
    let n = s.unicode_len();
    if i >= n {
        return String::new();
    }
    let c = s.get_char(i);
    if c.is_whitespace() {
        return filtered_words_exec(s, i + 1);
    }
    // Scan the whitespace-free run that starts at `i`.
    let mut j = i;
    let mut word = String::new();
    let mut ok = true;
    proof {
        lemma_word_end_at(s@, i as int);
        assert(s@.subrange(i as int, i as int) =~= Seq::<char>::empty());
    }
    loop
        invariant
            i <= j <= n,
            n == s@.len(),
            word_end_at(s@, i as int) == word_end_at(s@, j as int),
            word@ == s@.subrange(i as int, j as int),
            ok == all_word_chars(s@.subrange(i as int, j as int)),
        ensures
            i <= j <= n,
            j as int == word_end_at(s@, i as int),
            word@ == s@.subrange(i as int, j as int),
            ok == all_word_chars(s@.subrange(i as int, j as int)),
        decreases n - j,
    {
        if j >= n {
            break;
        }
        let cj = s.get_char(j);
        if cj.is_whitespace() {
            break;
        }
        word.push(cj);
        let keep = cj.is_alphanumeric() || cj == '_';
        if !keep {
            ok = false;
        }
        proof {
            let pre = s@.subrange(i as int, j as int);
            let ext = s@.subrange(i as int, j as int + 1);
            assert(ext =~= pre.push(cj));
            if all_word_chars(pre) && word_char(cj) {
                assert forall|k: int| 0 <= k < ext.len() implies word_char(
                    #[trigger] ext[k],
                ) by {
                    if k < pre.len() {
                        assert(word_char(pre[k]));
                    }
                }
            } else if !all_word_chars(pre) {
                let k = choose|k: int| 0 <= k < pre.len() && !word_char(#[trigger] pre[k]);
                assert(!word_char(ext[k]));
            } else {
                assert(!word_char(ext[ext.len() - 1]));
            }
        }
        j = j + 1;
    }
    proof {
        assert(word_end_at(s@, i as int) > i as int);
    }
    let rest = filtered_words_exec(s, j);
    if ok {
        if rest.as_str().is_empty() {
            proof {
                assert(rest@ =~= Seq::<char>::empty());
            }
            word
        } else {
            let mut out = word;
            out.append(" ");
            out.append(rest.as_str());
            proof {
                reveal_strlit(" ");
                assert(" "@ =~= seq![' ']);
            }
            out
        }
    } else {
        rest
    }
}

/// The whitespace-split tokens of `s`, those with characters outside
/// word characters discarded, rejoined with single spaces: the
/// intermediate form the capitalization step turns into an identifier.
pub fn normalized_words(s: &str) -> (r: String)
    ensures
        r@ == filtered_words(s@, 0),
{
    filtered_words_exec(s, 0)
}

/// Derive a type identifier from the literal `s`.
///
/// The result is determined by the characters of `s` alone.
pub fn derive_ident(s: &str) -> (r: String)
    ensures
        r@ == derived_ident(s@),
{
    let joined = normalized_words(s);
    to_upper_camel(joined.as_str())
}

} // verus!
