//! Substring search over log lines.
//!
//! Readiness is signalled by a line of the log file that contains a
//! given pattern. The search is a plain, case-sensitive substring
//! containment test: no anchoring, no regular expressions.

use vstd::prelude::*;
use vstd::string::StrSliceExecFns;

verus! {

/// `pat` occurs in `text` starting at character position `i`.
pub open spec fn contains_at(text: Seq<char>, pat: Seq<char>, i: int) -> bool {
    &&& 0 <= i
    &&& i + pat.len() <= text.len()
    &&& text.subrange(i, i + pat.len()) == pat
}

/// `pat` occurs somewhere in `text`.
pub open spec fn contains_pattern(text: Seq<char>, pat: Seq<char>) -> bool {
    exists|i: int| contains_at(text, pat, i)
}

/// Some line of `lines` contains `pat`.
pub open spec fn some_line_matches(lines: Seq<Seq<char>>, pat: Seq<char>) -> bool {
    exists|k: int| 0 <= k < lines.len() && contains_pattern(lines[k], pat)
}

/// Whether `pattern` occurs in `text` starting exactly at character
/// position `i`.
fn matches_at(text: &str, pattern: &str, i: usize) -> (r: bool)
    requires
        i + pattern@.len() <= text@.len(),
        text@.len() <= usize::MAX,
    ensures
        r == contains_at(text@, pattern@, i as int),
{
    let m: usize = pattern.unicode_len();
    let mut j: usize = 0;
    while j < m
        invariant
            m == pattern@.len(),
            i + m <= text@.len() <= usize::MAX,
            0 <= j <= m,
            forall|t: int| 0 <= t < j ==> text@[i + t] == pattern@[t],
        decreases m - j,
    {
        if text.get_char(i + j) != pattern.get_char(j) {
            proof {
                assert(text@.subrange(i as int, i + m)[j as int] == text@[i + j]);
            }
            return false;
        }
        j = j + 1;
    }
    proof {
        assert(text@.subrange(i as int, i + m) =~= pattern@);
    }
    true
}

/// Whether `pattern` occurs as a substring of `text`.
///
/// Matching is case-sensitive and may start at any character position.
/// The empty pattern is contained in every text.
pub fn contains_substring(text: &str, pattern: &str) -> (r: bool)
    ensures
        r == contains_pattern(text@, pattern@),
{
    let n: usize = text.unicode_len();
    let m: usize = pattern.unicode_len();
    if m > n {
        proof {
            assert(forall|i: int| !contains_at(text@, pattern@, i));
        }
        return false;
    }
    if m == 0 {
        proof {
            assert(text@.subrange(0, 0) =~= pattern@);
            assert(contains_at(text@, pattern@, 0));
        }
        return true;
    }
    let mut i: usize = 0;
    while i <= n - m
        invariant
            n == text@.len(),
            m == pattern@.len(),
            1 <= m <= n,
            0 <= i <= n - m + 1,
            forall|k: int| 0 <= k < i ==> !contains_at(text@, pattern@, k),
        decreases n - i,
    {
        if matches_at(text, pattern, i) {
            return true;
        }
        i = i + 1;
    }
    proof {
        assert(forall|k: int| i <= k ==> !contains_at(text@, pattern@, k));
    }
    false
}

/// The position of the first line of `lines` that contains `pattern`,
/// scanning the lines in order.
pub fn find_matching_line(lines: &Vec<String>, pattern: &str) -> (r: Option<usize>)
    ensures
        (r matches Some(k) ==> {
            &&& k < lines@.len()
            &&& contains_pattern(lines.deep_view()[k as int], pattern@)
            &&& forall|j: int| 0 <= j < k ==> !contains_pattern(lines.deep_view()[j], pattern@)
        }),
        r is None ==> !some_line_matches(lines.deep_view(), pattern@),
{
    let mut k: usize = 0;
    while k < lines.len()
        invariant
            0 <= k <= lines@.len(),
            forall|j: int| 0 <= j < k ==> !contains_pattern(lines.deep_view()[j], pattern@),
        decreases lines@.len() - k,
    {
        if contains_substring(lines[k].as_str(), pattern) {
            return Some(k);
        }
        k = k + 1;
    }
    None
}

/// Growth of the log never loses a match: if some line of `earlier`
/// contains `pattern`, and `earlier` is a prefix of `later`, then some
/// line of `later` contains it too. Rescanning a growing file from the
/// beginning is therefore safe to repeat.
pub proof fn lemma_match_survives_growth(
    earlier: Seq<Seq<char>>,
    later: Seq<Seq<char>>,
    pattern: Seq<char>,
)
    requires
        earlier.is_prefix_of(later),
        some_line_matches(earlier, pattern),
    ensures
        some_line_matches(later, pattern),
{
    let k = choose|k: int| 0 <= k < earlier.len() && contains_pattern(earlier[k], pattern);
    assert(earlier[k] == later.subrange(0, earlier.len() as int)[k]);
    assert(later[k] == earlier[k]);
    assert(0 <= k < later.len() && contains_pattern(later[k], pattern));
}

} // verus!
