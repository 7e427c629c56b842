//! Choosing the branch that a repository follows.

use vstd::prelude::*;
use crate::text::{find_text, first_occurrence, trim, trimmed};

verus! {

/// The branch to follow: the preferred one when it is named and exists on the
/// remote, else the remote's default branch, else none.
pub open spec fn resolution_of(
    preferred: Seq<char>,
    preferred_exists: bool,
    remote_default: Option<Seq<char>>,
) -> Option<Seq<char>> {
    if preferred.len() > 0 && preferred_exists {
        Some(preferred)
    } else {
        match remote_default {
            Some(d) => if d.len() > 0 {
                Some(d)
            } else {
                None
            },
            None => None,
        }
    }
}

pub open spec fn opt_view(o: Option<String>) -> Option<Seq<char>> {
    match o {
        Some(s) => Some(s@),
        None => None,
    }
}

/// `resolution_of` on the strings themselves.
pub open spec fn resolved_branch(
    preferred: String,
    preferred_exists: bool,
    remote_default: Option<String>,
) -> Option<String> {
    if preferred@.len() > 0 && preferred_exists {
        Some(preferred)
    } else {
        match remote_default {
            Some(d) => if d@.len() > 0 {
                Some(d)
            } else {
                None
            },
            None => None,
        }
    }
}

/// Resolves the branch to follow from the preferred name (empty for "the
/// remote's default"), whether the remote has that branch, and the remote's
/// default branch.
pub fn resolve_branch(preferred: &String, preferred_exists: bool, remote_default: Option<String>) -> (r:
    Option<String>)
    ensures
        r == resolved_branch(*preferred, preferred_exists, remote_default),
        opt_view(r) == resolution_of(preferred@, preferred_exists, opt_view(remote_default)),
{
    if preferred.as_str().unicode_len() > 0 && preferred_exists {
        Some(preferred.clone())
    } else {
        match remote_default {
            Some(d) => if d.as_str().unicode_len() > 0 {
                Some(d)
            } else {
                None
            },
            None => None,
        }
    }
}

/// A preferred branch that the remote lacks gives way to the remote's
/// default, whenever there is one.
pub proof fn lemma_missing_branch_falls_back(preferred: Seq<char>, remote_default: Seq<char>)
    requires
        remote_default.len() > 0,
    ensures
        resolution_of(preferred, false, Some(remote_default)) == Some(remote_default),
{
}

/// Resolving again from the branch that was chosen keeps it, as long as the
/// remote still has that branch.
pub proof fn lemma_resolution_stable(
    preferred: Seq<char>,
    preferred_exists: bool,
    remote_default: Option<Seq<char>>,
)
    ensures
        ({
            let r = resolution_of(preferred, preferred_exists, remote_default);
            r is Some ==> resolution_of(r->0, true, remote_default) == r
        }),
{
}

/// The marker that precedes the default branch in `git remote show` output.
pub open spec fn head_marker() -> Seq<char> {
    "HEAD branch:"@
}

/// The default branch that `git remote show` output names: the rest of the
/// line after the first marker, trimmed; none when there is no marker or the
/// rest is blank.
pub open spec fn head_branch_of(out: Seq<char>) -> Option<Seq<char>> {
    match first_occurrence(out, head_marker()) {
        None => None,
        Some(p) => {
            let rest = out.subrange(p + head_marker().len(), out.len() as int);
            let line = match first_occurrence(rest, "\n"@) {
                Some(q) => rest.take(q),
                None => rest,
            };
            if trimmed(line).len() > 0 {
                Some(trimmed(line))
            } else {
                None
            }
        },
    }
}

/// Reads the remote's default branch from the output of `git remote show`.
pub fn parse_head_branch(out: &str) -> (r: Option<String>)
    ensures
        opt_view(r) == head_branch_of(out@),
{
    let marker = "HEAD branch:";
    proof {
        reveal_strlit("HEAD branch:");
    }
    match find_text(out, marker) {
        None => None,
        Some(p) => {
            let n = out.unicode_len();
            let start = p + marker.unicode_len();
            let rest = out.substring_char(start, n);
            let line = match find_text(rest, "\n") {
                Some(q) => rest.substring_char(0, q),
                None => rest,
            };
            let t = trim(line);
            if t.unicode_len() > 0 {
                Some(t)
            } else {
                None
            }
        },
    }
}

} // verus!
