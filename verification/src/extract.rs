//! Token extraction: recovering the address candidate from free-form text.
//!
//! The candidate is the first maximal run of ASCII alphanumeric characters of
//! length at least 20. Address encodings in scope are alphanumeric-only and
//! at least that long, so the threshold tolerates surrounding labels,
//! punctuation and markup while filtering accidental short tokens.

use vstd::prelude::*;
use vstd::string::StrSliceExecFns;

verus! {

/// The least length a run must have to qualify as an address candidate.
pub open spec fn min_token_len() -> int {
    20
}

/// Whether a character is one of the ASCII alphanumerics that address
/// encodings are built from.
pub open spec fn spec_is_alnum(c: char) -> bool {
    ('0' <= c && c <= '9') || ('a' <= c && c <= 'z') || ('A' <= c && c <= 'Z')
}

/// Executable test for `spec_is_alnum`.
pub fn is_alnum(c: char) -> (r: bool)
    ensures
        r == spec_is_alnum(c),
{
    ('0' <= c && c <= '9') || ('a' <= c && c <= 'z') || ('A' <= c && c <= 'Z')
}

/// Some character of the window of qualifying length starting at `k` is not
/// alphanumeric.
pub open spec fn window_has_gap(p: Seq<char>, k: int) -> bool {
    exists|j: int| k <= j < k + min_token_len() && !spec_is_alnum(#[trigger] p[j])
}

/// `[a, b)` is a maximal alphanumeric run of qualifying length in `s`.
pub open spec fn is_run(s: Seq<char>, a: int, b: int) -> bool {
    &&& 0 <= a <= b <= s.len()
    &&& b - a >= min_token_len()
    &&& (forall|k: int| a <= k < b ==> spec_is_alnum(#[trigger] s[k]))
    &&& (a == 0 || !spec_is_alnum(s[a - 1]))
    &&& (b == s.len() || !spec_is_alnum(s[b]))
}

/// `[a, b)` is the first such run: no qualifying run starts earlier.
pub open spec fn is_first_run(s: Seq<char>, a: int, b: int) -> bool {
    &&& is_run(s, a, b)
    &&& (forall|a2: int, b2: int| is_run(s, a2, b2) ==> a <= a2)
}

/// Whether the text holds any qualifying run.
pub open spec fn has_token(s: Seq<char>) -> bool {
    exists|a: int, b: int| is_run(s, a, b)
}

/// The bounds of the first qualifying run.
pub open spec fn spec_token_at(s: Seq<char>) -> (int, int) {
    choose|ab: (int, int)| is_first_run(s, ab.0, ab.1)
}

/// The candidate token: the first maximal alphanumeric run of qualifying
/// length, if the text holds one.
pub open spec fn spec_extract(s: Seq<char>) -> Option<Seq<char>> {
    if has_token(s) {
        Some(s.subrange(spec_token_at(s).0, spec_token_at(s).1))
    } else {
        None
    }
}

/// Two first runs of the same text coincide.
proof fn lemma_first_run_unique(s: Seq<char>, a1: int, b1: int, a2: int, b2: int)
    requires
        is_first_run(s, a1, b1),
        is_first_run(s, a2, b2),
    ensures
        a1 == a2,
        b1 == b2,
{
    assert(a1 <= a2 && a2 <= a1);
    if b1 < b2 {
        assert(spec_is_alnum(s[b1]));
    }
    if b2 < b1 {
        assert(spec_is_alnum(s[b2]));
    }
}

/// A first run pins down `spec_extract`.
proof fn lemma_extract_of_first_run(s: Seq<char>, a: int, b: int)
    requires
        is_first_run(s, a, b),
    ensures
        spec_extract(s) == Some(s.subrange(a, b)),
{
    assert(has_token(s));
    let abw: (int, int) = (a, b);
    assert(is_first_run(s, abw.0, abw.1));
    assert(exists|ab: (int, int)| is_first_run(s, ab.0, ab.1));
    let ab = spec_token_at(s);
    assert(is_first_run(s, ab.0, ab.1));
    lemma_first_run_unique(s, a, b, ab.0, ab.1);
}

/// Locates the first maximal alphanumeric run of qualifying length.
///
/// Returns `None` when the text holds none: in particular for empty input
/// and for input consisting only of punctuation and short runs.
pub fn extract(s: &str) -> (r: Option<String>)
    ensures
        r matches Some(t) ==> spec_extract(s@) == Some(t@),
        r is None ==> spec_extract(s@) is None,
{
    let n = s.unicode_len();
    let mut i: usize = 0;
    loop
        invariant
            0 <= i <= n,
            n == s@.len(),
            i == 0 || !spec_is_alnum(s@[i as int - 1]),
            forall|a2: int, b2: int| is_run(s@, a2, b2) ==> a2 >= i,
        decreases n - i,
    {
        // Skip to the start of the next alphanumeric run.
        if i == n {
            proof {
                assert(forall|a2: int, b2: int| !is_run(s@, a2, b2));
            }
            return None;
        }
        if !is_alnum(s.get_char(i)) {
            i = i + 1;
            continue;
        }
        // Measure the run that starts at `i`.
        let start = i;
        let mut j = i + 1;
        while j < n && is_alnum(s.get_char(j))
            invariant
                start < j <= n,
                n == s@.len(),
                forall|k: int| start <= k < j ==> spec_is_alnum(#[trigger] s@[k]),
            decreases n - j,
        {
            j = j + 1;
        }
        if j - start >= 20 {
            proof {
                assert(is_run(s@, start as int, j as int));
                assert forall|a2: int, b2: int| is_run(s@, a2, b2) implies a2 >= start by {
                    if a2 < start {
                        assert(a2 >= i);
                    }
                }
                assert(is_first_run(s@, start as int, j as int));
                lemma_extract_of_first_run(s@, start as int, j as int);
            }
            let token = s.substring_char(start, j);
            return Some(token.to_string());
        }
        // The run is too short; no qualifying run can start before its end,
        // nor at the non-alphanumeric character that bounds it.
        proof {
            assert forall|a2: int, b2: int| is_run(s@, a2, b2) implies a2 >= j + 1 by {
                if a2 <= j {
                    assert(a2 >= i);
                    if a2 == start {
                        // A run starting here would extend past j, but s[j]
                        // bounds the run, and a short run does not qualify.
                        if b2 > j {
                            assert(spec_is_alnum(s@[j as int]));
                        }
                    } else if a2 > start && a2 <= j {
                        assert(spec_is_alnum(s@[a2 - 1]));
                    }
                }
            }
        }
        if j == n {
            return None;
        }
        i = j + 1;
    }
}

/// A string that is wholly one qualifying alphanumeric run extracts to
/// itself.
pub proof fn lemma_extract_self(s: Seq<char>)
    requires
        s.len() >= min_token_len(),
        forall|k: int| 0 <= k < s.len() ==> spec_is_alnum(#[trigger] s[k]),
    ensures
        spec_extract(s) == Some(s),
{
    assert(is_run(s, 0, s.len() as int));
    assert(is_first_run(s, 0, s.len() as int));
    lemma_extract_of_first_run(s, 0, s.len() as int);
    assert(s.subrange(0, s.len() as int) =~= s);
}

/// NOISE TOLERANCE. Wrapping a qualifying alphanumeric token in noise that
/// holds no 20-character alphanumeric window, and that does not touch the
/// token with an alphanumeric character on either side, does not change what
/// is extracted: the token itself is recovered.
pub proof fn lemma_extract_noise(p: Seq<char>, s: Seq<char>, q: Seq<char>)
    requires
        s.len() >= min_token_len(),
        forall|k: int| 0 <= k < s.len() ==> spec_is_alnum(#[trigger] s[k]),
        p.len() == 0 || !spec_is_alnum(p[p.len() - 1]),
        q.len() == 0 || !spec_is_alnum(q[0]),
        forall|k: int| 0 <= k <= p.len() - min_token_len() ==> #[trigger] window_has_gap(p, k),
    ensures
        spec_extract(p + s + q) == Some(s),
        spec_extract(s) == Some(s),
{
    let w = p + s + q;
    let a = p.len() as int;
    let b = a + s.len() as int;
    assert forall|k: int| a <= k < b implies spec_is_alnum(#[trigger] w[k]) by {
        assert(w[k] == s[k - a]);
    }
    assert(a == 0 || !spec_is_alnum(w[a - 1]));
    assert(b == w.len() || !spec_is_alnum(w[b]));
    assert(is_run(w, a, b));
    assert forall|a2: int, b2: int| is_run(w, a2, b2) implies a <= a2 by {
        if a2 < a {
            // The run would put 20 consecutive alphanumerics inside `p`:
            // either it ends within `p`, or it covers `p`'s last character.
            if b2 <= a {
                assert(window_has_gap(p, a2));
                let j = choose|j: int| a2 <= j < a2 + min_token_len() && !spec_is_alnum(
                    #[trigger] p[j],
                );
                assert(w[j] == p[j]);
                assert(spec_is_alnum(w[j]));
            } else {
                assert(spec_is_alnum(w[a - 1]));
                assert(w[a - 1] == p[a - 1]);
            }
        }
    }
    assert(is_first_run(w, a, b));
    lemma_extract_of_first_run(w, a, b);
    assert(w.subrange(a, b) =~= s);

    lemma_extract_self(s);
}

/// Verified string equality over the character views.
pub fn str_eq(a: &str, b: &str) -> (r: bool)
    ensures
        r == (a@ == b@),
{
    let na = a.unicode_len();
    let nb = b.unicode_len();
    if na != nb {
        assert(a@ != b@);
        return false;
    }
    let mut i: usize = 0;
    while i < na
        invariant
            0 <= i <= na,
            na == a@.len(),
            na == b@.len(),
            forall|k: int| 0 <= k < i ==> a@[k] == b@[k],
        decreases na - i,
    {
        if a.get_char(i) != b.get_char(i) {
            assert(a@ != b@);
            return false;
        }
        i = i + 1;
    }
    assert(a@ =~= b@);
    true
}

} // verus!
