//! The command line: its commands, and what `add` asks for.

use vstd::prelude::*;
use crate::branch::opt_view;
use crate::repo::Repo;
use crate::text::{last_segment, last_segment_of};

verus! {

/// The sub-commands.
#[allow(inconsistent_fields)]
pub enum Command {
    /// Register a repository and the branch to follow.
    Add { path: Option<String>, branch: Option<String> },
    /// Install a system component (`service`).
    Configure { sub: String },
    /// Show log entries: a filter on the repository's locator, an exact
    /// locator, a text that the message must contain, and a count (0: all).
    Logs { sub: Option<String>, repo: Option<String>, branch: Option<String>, limit: usize },
    /// Show jobs.
    Jobs { sub: Option<String> },
    /// Show repositories.
    Repo { sub: Option<String> },
    /// Remove the working copies.
    Reset,
}

pub struct Arguments {
    pub command: Option<Command>,
}

/// Why an `add` was refused.
#[derive(PartialEq, Eq, Structural, Clone, Copy, Debug)]
pub enum AddError {
    MissingPath,
    MissingBranch,
    EmptyBranch,
}

/// What `add` does with its arguments: a missing locator, then a missing or
/// empty branch, are refused; an empty locator adds nothing; otherwise the
/// repository is named after the locator's last segment.
pub open spec fn add_outcome(path: Option<Seq<char>>, branch: Option<Seq<char>>) -> Result<
    Option<(Seq<char>, Seq<char>, Seq<char>)>,
    AddError,
> {
    match (path, branch) {
        (None, _) => Err(AddError::MissingPath),
        (Some(_), None) => Err(AddError::MissingBranch),
        (Some(p), Some(b)) => if b.len() == 0 {
            Err(AddError::EmptyBranch)
        } else if p.len() == 0 {
            Ok(None)
        } else {
            Ok(Some((last_segment_of(p), p, b)))
        },
    }
}

/// Checks the arguments of `add` and builds the repository to register,
/// whose working copy is `work_dir`.
pub fn plan_add(path: Option<String>, branch: Option<String>, work_dir: String) -> (r: Result<
    Option<Repo>,
    AddError,
>)
    ensures
        match (r, add_outcome(opt_view(path), opt_view(branch))) {
            (Err(e), Err(f)) => e == f,
            (Ok(None), Ok(None)) => true,
            (Ok(Some(repo)), Ok(Some((name, p, b)))) => repo.name@ == name && repo.path@ == p
                && repo.target_branch@ == b && repo.preferred_branch@ == b && repo.work_dir
                == work_dir && repo.last_sha is None && !repo.triggered,
            _ => false,
        },
{
    match path {
        None => Err(AddError::MissingPath),
        Some(p) => match branch {
            None => Err(AddError::MissingBranch),
            Some(b) => {
                if b.as_str().unicode_len() == 0 {
                    Err(AddError::EmptyBranch)
                } else if p.as_str().unicode_len() == 0 {
                    Ok(None)
                } else {
                    let name = last_segment(p.as_str());
                    Ok(Some(Repo::new(name, p, work_dir, None, b, false)))
                }
            },
        },
    }
}

} // verus!
