//! Character-level helpers shared by the validators and the command
//! synthesizer: whitespace classification, ASCII case folding, substring
//! and prefix matching, and trimming.

use vstd::prelude::*;

verus! {

/// Unicode white-space characters (the `White_Space` property).
pub open spec fn is_space(c: char) -> bool {
    c == ' ' || c == '\t' || c == '\n' || c == '\r' || c == '\u{b}' || c == '\u{c}'
        || c == '\u{85}' || c == '\u{a0}' || c == '\u{1680}'
        || ('\u{2000}' <= c && c <= '\u{200a}')
        || c == '\u{2028}' || c == '\u{2029}' || c == '\u{202f}' || c == '\u{205f}'
        || c == '\u{3000}'
}

pub fn is_space_char(c: char) -> (r: bool)
    ensures
        r == is_space(c),
{
    c == ' ' || c == '\t' || c == '\n' || c == '\r' || c == '\u{b}' || c == '\u{c}'
        || c == '\u{85}' || c == '\u{a0}' || c == '\u{1680}'
        || ('\u{2000}' <= c && c <= '\u{200a}')
        || c == '\u{2028}' || c == '\u{2029}' || c == '\u{202f}' || c == '\u{205f}'
        || c == '\u{3000}'
}

/// ASCII case folding: the letters `A` to `Z` map to their lower-case
/// counterparts, every other character is left alone.
pub open spec fn lower(c: char) -> char {
    match c {
        'A' => 'a',
        'B' => 'b',
        'C' => 'c',
        'D' => 'd',
        'E' => 'e',
        'F' => 'f',
        'G' => 'g',
        'H' => 'h',
        'I' => 'i',
        'J' => 'j',
        'K' => 'k',
        'L' => 'l',
        'M' => 'm',
        'N' => 'n',
        'O' => 'o',
        'P' => 'p',
        'Q' => 'q',
        'R' => 'r',
        'S' => 's',
        'T' => 't',
        'U' => 'u',
        'V' => 'v',
        'W' => 'w',
        'X' => 'x',
        'Y' => 'y',
        'Z' => 'z',
        _ => c,
    }
}

pub fn lower_char(c: char) -> (r: char)
    ensures
        r == lower(c),
{
    match c {
        'A' => 'a',
        'B' => 'b',
        'C' => 'c',
        'D' => 'd',
        'E' => 'e',
        'F' => 'f',
        'G' => 'g',
        'H' => 'h',
        'I' => 'i',
        'J' => 'j',
        'K' => 'k',
        'L' => 'l',
        'M' => 'm',
        'N' => 'n',
        'O' => 'o',
        'P' => 'p',
        'Q' => 'q',
        'R' => 'r',
        'S' => 's',
        'T' => 't',
        'U' => 'u',
        'V' => 'v',
        'W' => 'w',
        'X' => 'x',
        'Y' => 'y',
        'Z' => 'z',
        _ => c,
    }
}

/// Two copies of `c` stand next to each other somewhere in `s`.
pub open spec fn has_pair(s: Seq<char>, c: char) -> bool {
    exists|i: int| 0 <= i && i + 1 < s.len() && #[trigger] s[i] == c && s[i + 1] == c
}

/// The pattern `p` occurs at position `i` of `s`, comparing case-insensitively
/// on the `s` side (`p` is expected to be lower case already).
pub open spec fn lower_match_at(s: Seq<char>, p: Seq<char>, i: int) -> bool {
    &&& 0 <= i
    &&& i + p.len() <= s.len()
    &&& forall|k: int| 0 <= k < p.len() ==> lower(s[i + k]) == p[k]
}

/// The pattern `p` occurs somewhere in `s`, case-insensitively.
pub open spec fn lower_contains(s: Seq<char>, p: Seq<char>) -> bool {
    exists|i: int| lower_match_at(s, p, i)
}

/// `s` begins with the pattern `p`, case-insensitively.
pub open spec fn lower_starts_with(s: Seq<char>, p: Seq<char>) -> bool {
    lower_match_at(s, p, 0)
}

pub fn contains_char(s: &str, c: char) -> (r: bool)
    ensures
        r == s@.contains(c),
{
    let n = s.unicode_len();
    let mut i: usize = 0;
    while i < n
        invariant
            n == s@.len(),
            i <= n,
            forall|k: int| 0 <= k < i ==> s@[k] != c,
        decreases n - i,
    {
        if s.get_char(i) == c {
            assert(s@.contains(c)) by {
                assert(s@[i as int] == c);
            }
            return true;
        }
        i += 1;
    }
    false
}

pub fn has_doubled(s: &str, c: char) -> (r: bool)
    ensures
        r == has_pair(s@, c),
{
    let n = s.unicode_len();
    if n < 2 {
        return false;
    }
    let mut i: usize = 0;
    while i + 1 < n
        invariant
            n == s@.len(),
            i + 1 <= n,
            forall|k: int| 0 <= k < i ==> !(#[trigger] s@[k] == c && s@[k + 1] == c),
        decreases n - i,
    {
        if s.get_char(i) == c && s.get_char(i + 1) == c {
            return true;
        }
        i += 1;
    }
    false
}

fn match_lower_at(s: &str, p: &str, i: usize) -> (r: bool)
    requires
        i + p@.len() <= s@.len(),
    ensures
        r == lower_match_at(s@, p@, i as int),
{
    let n = s.unicode_len();
    let m = p.unicode_len();
    let mut k: usize = 0;
    while k < m
        invariant
            n == s@.len(),
            m == p@.len(),
            i + m <= n,
            k <= m,
            forall|t: int| 0 <= t < k ==> lower(s@[i + t]) == p@[t],
        decreases m - k,
    {
        if lower_char(s.get_char(i + k)) != p.get_char(k) {
            return false;
        }
        k += 1;
    }
    true
}

pub fn contains_lower(s: &str, p: &str) -> (r: bool)
    ensures
        r == lower_contains(s@, p@),
{
    let n = s.unicode_len();
    let m = p.unicode_len();
    if m > n {
        assert(!lower_contains(s@, p@)) by {
            assert(forall|i: int| !lower_match_at(s@, p@, i));
        }
        return false;
    }
    let mut i: usize = 0;
    while i <= n - m
        invariant
            n == s@.len(),
            m == p@.len(),
            m <= n,
            i <= n - m + 1,
            forall|j: int| 0 <= j < i ==> !lower_match_at(s@, p@, j),
        decreases n - m - i + 1,
    {
        if match_lower_at(s, p, i) {
            return true;
        }
        i += 1;
    }
    assert(forall|j: int| !lower_match_at(s@, p@, j));
    false
}

pub fn starts_with_lower(s: &str, p: &str) -> (r: bool)
    ensures
        r == lower_starts_with(s@, p@),
{
    let n = s.unicode_len();
    let m = p.unicode_len();
    if m > n {
        return false;
    }
    match_lower_at(s, p, 0)
}

/// Drops the longest prefix of `s` whose characters all satisfy `pred`.
pub open spec fn drop_leading(s: Seq<char>, pred: spec_fn(char) -> bool) -> Seq<char>
    decreases s.len(),
{
    if s.len() > 0 && pred(s[0]) {
        drop_leading(s.drop_first(), pred)
    } else {
        s
    }
}

/// Drops the longest suffix of `s` whose characters all satisfy `pred`.
pub open spec fn drop_trailing(s: Seq<char>, pred: spec_fn(char) -> bool) -> Seq<char>
    decreases s.len(),
{
    if s.len() > 0 && pred(s.last()) {
        drop_trailing(s.drop_last(), pred)
    } else {
        s
    }
}

/// If the first `a` characters of `s` satisfy `pred` and the character at `a`
/// (if any) does not, then dropping the leading `pred`-run of `s` is exactly
/// the tail of `s` that starts at `a`.
pub proof fn lemma_drop_leading(s: Seq<char>, pred: spec_fn(char) -> bool, a: int)
    requires
        0 <= a <= s.len(),
        forall|k: int| 0 <= k < a ==> pred(s[k]),
        a == s.len() || !pred(s[a]),
    ensures
        drop_leading(s, pred) == s.subrange(a, s.len() as int),
    decreases a,
{
    if a == 0 {
        assert(drop_leading(s, pred) =~= s.subrange(0, s.len() as int));
    } else {
        assert(pred(s[0]));
        let t = s.drop_first();
        assert(forall|k: int| 0 <= k < a - 1 ==> pred(t[k]));
        lemma_drop_leading(t, pred, a - 1);
        assert(t.subrange(a - 1, t.len() as int) =~= s.subrange(a, s.len() as int));
    }
}

/// The mirror image of `lemma_drop_leading` for the trailing run: if every
/// character from `b` on satisfies `pred` and the one just before `b` (if
/// any) does not, the trimmed sequence is the prefix of `s` up to `b`.
pub proof fn lemma_drop_trailing(s: Seq<char>, pred: spec_fn(char) -> bool, b: int)
    requires
        0 <= b <= s.len(),
        forall|k: int| b <= k < s.len() ==> pred(s[k]),
        b == 0 || !pred(s[b - 1]),
    ensures
        drop_trailing(s, pred) == s.subrange(0, b),
    decreases s.len() - b,
{
    if b == s.len() {
        assert(drop_trailing(s, pred) =~= s.subrange(0, b));
    } else {
        assert(pred(s.last()));
        let t = s.drop_last();
        assert(forall|k: int| b <= k < t.len() ==> t[k] == s[k]);
        lemma_drop_trailing(t, pred, b);
        assert(t.subrange(0, b) =~= s.subrange(0, b));
    }
}

} // verus!
