//! Security validation of candidate interpreter paths.
//!
//! Candidates come from environment lookups and from fixed fallback lists,
//! but the check defends against search-path poisoning or malformed
//! configuration values reaching process spawn.  A rejected candidate is
//! skipped silently, never a fatal error.

use vstd::prelude::*;
use crate::text::{
    contains_char, contains_lower, has_doubled, has_pair, lower_contains, lower_starts_with,
    starts_with_lower,
};

verus! {

/// A candidate interpreter path is safe to execute: it is non-empty,
/// shorter than 1000 characters, holds no null byte, no `..` traversal
/// segment and no doubled separator, and either names `python` somewhere
/// (case-insensitively) or starts with one of the trusted root prefixes.
pub open spec fn path_acceptable(s: Seq<char>) -> bool {
    &&& s.len() > 0
    &&& s.len() < 1000
    &&& !s.contains('\0')
    &&& !has_pair(s, '.')
    &&& !has_pair(s, '/')
    &&& (lower_contains(s, "python"@) || lower_starts_with(s, "/usr/"@) || lower_starts_with(
        s,
        "/opt/"@,
    ))
}

/// Decides `path_acceptable` for an executable path.
pub fn validate_python_path(path: &str) -> (r: bool)
    ensures
        r == path_acceptable(path@),
{
    let n = path.unicode_len();
    if n == 0 || n >= 1000 {
        return false;
    }
    if contains_char(path, '\0') {
        return false;
    }
    if has_doubled(path, '.') || has_doubled(path, '/') {
        return false;
    }
    contains_lower(path, "python") || starts_with_lower(path, "/usr/") || starts_with_lower(
        path,
        "/opt/",
    )
}

/// Malformed candidates are always rejected: the empty string, a string of
/// 1000 characters or more, and any string holding a null byte all fail
/// `path_acceptable`.
pub proof fn lemma_rejects_malformed(s: Seq<char>)
    requires
        s.len() == 0 || s.len() >= 1000 || s.contains('\0'),
    ensures
        !path_acceptable(s),
{
}

/// Traversal attempts are always rejected: a string holding `..` or a
/// doubled separator fails `path_acceptable` even when it also names
/// `python` or starts with a trusted root.
pub proof fn lemma_rejects_traversal(s: Seq<char>)
    requires
        has_pair(s, '.') || has_pair(s, '/'),
    ensures
        !path_acceptable(s),
{
}

} // verus!
