//! Version-compatibility matching on the output of an interpreter's
//! version probe.
//!
//! The accepted set is exactly the two supported minor releases.  A naive
//! substring match would wrongly accept numerically adjacent releases such
//! as `3.110`, so the rule is prefix-plus-boundary: the trimmed output must
//! start with `Python 3.11` or `Python 3.12`, and the character right after
//! the prefix, if any, must be a dot or white space.

use vstd::prelude::*;
use crate::text::{
    drop_leading, drop_trailing, is_space, is_space_char, lemma_drop_leading, lemma_drop_trailing,
};

verus! {

/// White-space classification as a first-class predicate, so that the
/// trimming specs and their lemmas speak of one and the same function.
pub open spec fn space_pred() -> spec_fn(char) -> bool {
    |c: char| is_space(c)
}

/// The probe output with white space removed from both ends.
pub open spec fn trimmed(s: Seq<char>) -> Seq<char> {
    drop_trailing(drop_leading(s, space_pred()), space_pred())
}

/// Whatever follows the first `n` characters of `t` starts at a version
/// boundary: nothing at all, a dot, or white space.
pub open spec fn boundary_ok(t: Seq<char>, n: int) -> bool {
    t.len() == n || t[n] == '.' || is_space(t[n])
}

/// `t` starts with the accepted-version prefix `p` and the next character,
/// if any, sits on a version boundary.
pub open spec fn prefix_match(t: Seq<char>, p: Seq<char>) -> bool {
    &&& t.len() >= p.len()
    &&& t.subrange(0, p.len() as int) == p
    &&& boundary_ok(t, p.len() as int)
}

/// The probe output names one of the two accepted runtime versions.
pub open spec fn accepted_version(s: Seq<char>) -> bool {
    prefix_match(trimmed(s), "Python 3.11"@) || prefix_match(trimmed(s), "Python 3.12"@)
}

/// Checks `prefix_match` of `p` against the window `s[a..b]`.
fn window_prefix_match(s: &str, a: usize, b: usize, p: &str) -> (r: bool)
    requires
        a <= b <= s@.len(),
    ensures
        r == prefix_match(s@.subrange(a as int, b as int), p@),
{
    let ghost t = s@.subrange(a as int, b as int);
    let m = p.unicode_len();
    if b - a < m {
        return false;
    }
    let mut k: usize = 0;
    while k < m
        invariant
            m == p@.len(),
            a <= b <= s@.len(),
            m <= b - a,
            k <= m,
            t == s@.subrange(a as int, b as int),
            forall|j: int| 0 <= j < k ==> t[j] == p@[j],
        decreases m - k,
    {
        if s.get_char(a + k) != p.get_char(k) {
            assert(t[k as int] != p@[k as int]);
            return false;
        }
        k += 1;
    }
    assert(t.subrange(0, m as int) =~= p@);
    if b - a == m {
        true
    } else {
        let c = s.get_char(a + m);
        assert(t[m as int] == c);
        c == '.' || is_space_char(c)
    }
}

/// Decides `accepted_version` for a version-probe output.
pub fn is_valid_python_version(version_str: &str) -> (r: bool)
    ensures
        r == accepted_version(version_str@),
{
    let ghost ws = space_pred();
    let n = version_str.unicode_len();
    let mut a: usize = 0;
    while a < n && is_space_char(version_str.get_char(a))
        invariant
            n == version_str@.len(),
            a <= n,
            forall|k: int| 0 <= k < a ==> is_space(version_str@[k]),
        decreases n - a,
    {
        a += 1;
    }
    let mut b: usize = n;
    while b > a && is_space_char(version_str.get_char(b - 1))
        invariant
            n == version_str@.len(),
            a <= b <= n,
            forall|k: int| b <= k < n ==> is_space(version_str@[k]),
        decreases b,
    {
        b -= 1;
    }
    proof {
        lemma_drop_leading(version_str@, ws, a as int);
        let t1 = version_str@.subrange(a as int, n as int);
        assert(forall|k: int|
            b - a <= k < t1.len() ==> is_space(#[trigger] t1[k]) == is_space(
                version_str@[a + k],
            ));
        lemma_drop_trailing(t1, ws, b - a);
        assert(t1.subrange(0, b - a) =~= version_str@.subrange(a as int, b as int));
        assert(trimmed(version_str@) == version_str@.subrange(a as int, b as int));
    }
    window_prefix_match(version_str, a, b, "Python 3.11") || window_prefix_match(
        version_str,
        a,
        b,
        "Python 3.12",
    )
}

} // verus!
