//! Tracked repositories and where their working copies live.

use vstd::prelude::*;
use crate::detect::{ChangeDetector, ChangeOutcome};
use crate::text::{contains_text, first_occurrence, last_segment, last_segment_of};

verus! {

/// A tracked repository.
pub struct Repo {
    /// The registry entry's name.
    pub name: String,
    /// The remote locator.
    pub path: String,
    /// The working copy.
    pub work_dir: String,
    /// The last commit seen on the remote.
    pub last_sha: Option<String>,
    /// The resolved branch.
    pub target_branch: String,
    /// A change was detected and its workflow has not run yet.
    pub triggered: bool,
    /// The branch the registry names (empty for the remote's default).
    pub preferred_branch: String,
}

/// A registry entry: a remote locator and, optionally, the branch to follow.
pub struct Repos {
    pub path: String,
    pub target_branch: Option<String>,
}

/// The operating systems whose cache and configuration layouts are known.
#[derive(PartialEq, Eq, Structural, Clone, Copy, Debug)]
pub enum Platform {
    Linux,
    MacOs,
    Other,
}

/// The branch that a default repository follows.
pub open spec fn fallback_branch() -> Seq<char> {
    "master"@
}

impl Default for Repo {
    fn default() -> (r: Repo)
        ensures
            r.name@.len() == 0,
            r.path@.len() == 0,
            r.work_dir@.len() == 0,
            r.last_sha is None,
            r.target_branch@ == fallback_branch(),
            r.preferred_branch@ == fallback_branch(),
            !r.triggered,
    {
        Repo {
            name: String::new(),
            path: String::new(),
            work_dir: String::new(),
            last_sha: None,
            target_branch: String::from_str("master"),
            triggered: false,
            preferred_branch: String::from_str("master"),
        }
    }
}

impl Repo {
    /// A repository that prefers, and so far follows, `target_branch`.
    pub fn new(
        name: String,
        path: String,
        work_dir: String,
        last_sha: Option<String>,
        target_branch: String,
        triggered: bool,
    ) -> (r: Repo)
        ensures
            r.name == name,
            r.path == path,
            r.work_dir == work_dir,
            r.last_sha == last_sha,
            r.target_branch == target_branch,
            r.preferred_branch == target_branch,
            r.triggered == triggered,
    {
        let preferred_branch = target_branch.clone();
        Repo { name, path, work_dir, last_sha, target_branch, triggered, preferred_branch }
    }

    /// The repository of a registry entry; an entry without a branch prefers
    /// none, so that the remote's default branch is resolved at runtime.
    pub fn from_registry(name: String, entry: &Repos, work_dir: String) -> (r: Repo)
        ensures
            r.name == name,
            r.path@ == entry.path@,
            r.work_dir == work_dir,
            r.last_sha is None,
            !r.triggered,
            r.preferred_branch@ == match entry.target_branch {
                Some(b) => b@,
                None => Seq::<char>::empty(),
            },
            r.target_branch@ == r.preferred_branch@,
    {
        let branch = match &entry.target_branch {
            Some(b) => b.clone(),
            None => String::new(),
        };
        Repo {
            name,
            path: entry.path.clone(),
            work_dir,
            last_sha: None,
            target_branch: branch.clone(),
            triggered: false,
            preferred_branch: branch,
        }
    }

    /// Takes in what a finished round of change detection found: the resolved
    /// branch, if resolution succeeded, and the tip whenever it was compared
    /// with the record (`NoChange`, `FirstSeen`, `Changed`); only `Changed`
    /// triggers the workflow.
    pub fn apply_detection(&mut self, d: &ChangeDetector)
        requires
            d.is_finished(),
        ensures
            final(self).name == old(self).name,
            final(self).path == old(self).path,
            final(self).work_dir == old(self).work_dir,
            final(self).preferred_branch == old(self).preferred_branch,
            final(self).target_branch == if d.branch@.len() > 0 {
                d.branch
            } else {
                old(self).target_branch
            },
            final(self).last_sha == match d.outcome() {
                ChangeOutcome::NoChange | ChangeOutcome::FirstSeen | ChangeOutcome::Changed => Some(
                    d.tip,
                ),
                _ => old(self).last_sha,
            },
            final(self).triggered == (old(self).triggered || d.outcome()
                == ChangeOutcome::Changed),
    {
        if d.branch.as_str().unicode_len() > 0 {
            self.target_branch = d.branch.clone();
        }
        match &d.pending {
            crate::detect::DetectAction::Finish(o) => match o {
                ChangeOutcome::NoChange | ChangeOutcome::FirstSeen => {
                    self.last_sha = Some(d.tip.clone());
                },
                ChangeOutcome::Changed => {
                    self.last_sha = Some(d.tip.clone());
                    self.triggered = true;
                },
                _ => {},
            },
            _ => {},
        }
    }

    /// A field-by-field copy.
    pub fn duplicate(&self) -> (r: Repo)
        ensures
            r == *self,
    {
        Repo {
            name: self.name.clone(),
            path: self.path.clone(),
            work_dir: self.work_dir.clone(),
            last_sha: match &self.last_sha {
                Some(s) => Some(s.clone()),
                None => None,
            },
            target_branch: self.target_branch.clone(),
            triggered: self.triggered,
            preferred_branch: self.preferred_branch.clone(),
        }
    }

    /// Consumes the trigger: tells whether the workflow is due, and clears it.
    pub fn take_trigger(&mut self) -> (due: bool)
        ensures
            due == old(self).triggered,
            !final(self).triggered,
            final(self).name == old(self).name,
            final(self).path == old(self).path,
            final(self).work_dir == old(self).work_dir,
            final(self).last_sha == old(self).last_sha,
            final(self).target_branch == old(self).target_branch,
            final(self).preferred_branch == old(self).preferred_branch,
    {
        let due = self.triggered;
        self.triggered = false;
        due
    }

    /// The registry entry for this repository, in the registry's text format.
    pub fn config_entry(&self) -> (r: String)
        ensures
            r@ == config_entry_of(self.path@, self.target_branch@),
    {
        let mut s = String::from_str("[");
        let name = last_segment(self.path.as_str());
        s.append(name.as_str());
        s.append("]\npath = \"");
        s.append(self.path.as_str());
        s.append("\"\ntarget_branch = \"");
        s.append(self.target_branch.as_str());
        s.append("\"\n\n");
        s
    }
}

pub open spec fn config_entry_of(path: Seq<char>, branch: Seq<char>) -> Seq<char> {
    "["@ + last_segment_of(path) + "]\npath = \""@ + path + "\"\ntarget_branch = \""@ + branch
        + "\"\n\n"@
}

/// Whether the account is the administrator's: its name contains `root`.
pub open spec fn is_admin(user: Seq<char>) -> bool {
    first_occurrence(user, "root"@) is Some
}

/// The working copy of the repository at `path`, for the given account and
/// operating system.
pub open spec fn work_dir_of(path: Seq<char>, user: Seq<char>, platform: Platform) -> Seq<char> {
    let name = last_segment_of(path);
    match platform {
        Platform::Linux => if is_admin(user) {
            "/root/.cache/phantom_ci/"@ + name
        } else {
            "/home/"@ + user + "/.cache/phantom_ci/"@ + name
        },
        Platform::MacOs => if is_admin(user) {
            "/var/root/.cache/phantom_ci/"@ + name
        } else {
            "/Users/"@ + user + "/Library/Caches/com.helloimalemur.phantom_ci/"@ + name
        },
        Platform::Other => "/tmp/phantom_ci/"@ + name,
    }
}

/// Computes the working copy's directory for the registry entry.
pub fn repo_work_dir(repo: &Repos, user: &str, platform: Platform) -> (r: String)
    ensures
        r@ == work_dir_of(repo.path@, user@, platform),
{
    let name = last_segment(repo.path.as_str());
    let admin = contains_text(user, "root");
    let mut s = match platform {
        Platform::Linux => if admin {
            String::from_str("/root/.cache/phantom_ci/")
        } else {
            let mut s = String::from_str("/home/");
            s.append(user);
            s.append("/.cache/phantom_ci/");
            s
        },
        Platform::MacOs => if admin {
            String::from_str("/var/root/.cache/phantom_ci/")
        } else {
            let mut s = String::from_str("/Users/");
            s.append(user);
            s.append("/Library/Caches/com.helloimalemur.phantom_ci/");
            s
        },
        Platform::Other => String::from_str("/tmp/phantom_ci/"),
    };
    s.append(name.as_str());
    s
}

/// The directory that holds the configuration, for the given account and
/// operating system; none on an unknown system.
pub open spec fn config_dir_of(user: Seq<char>, platform: Platform) -> Option<Seq<char>> {
    match platform {
        Platform::Linux => Some(
            if is_admin(user) {
                "/root/.config/phantom_ci/"@
            } else {
                "/home/"@ + user + "/.config/phantom_ci/"@
            },
        ),
        Platform::MacOs => Some(
            if is_admin(user) {
                "/var/root/.config/phantom_ci/"@
            } else {
                "/Users/"@ + user + "/Library/Application\\ Support/com.helloimalemur.phantom_ci/"@
            },
        ),
        Platform::Other => None,
    }
}

pub fn default_config_path(user: &str, platform: Platform) -> (r: Option<String>)
    ensures
        match r {
            Some(s) => config_dir_of(user@, platform) == Some(s@),
            None => config_dir_of(user@, platform) is None,
        },
{
    let admin = contains_text(user, "root");
    match platform {
        Platform::Linux => if admin {
            Some(String::from_str("/root/.config/phantom_ci/"))
        } else {
            let mut s = String::from_str("/home/");
            s.append(user);
            s.append("/.config/phantom_ci/");
            Some(s)
        },
        Platform::MacOs => if admin {
            Some(String::from_str("/var/root/.config/phantom_ci/"))
        } else {
            let mut s = String::from_str("/Users/");
            s.append(user);
            s.append("/Library/Application\\ Support/com.helloimalemur.phantom_ci/");
            Some(s)
        },
        Platform::Other => None,
    }
}

/// The directory that holds every working copy, for the given account and
/// operating system; none on an unknown system.
pub open spec fn cache_root_of(user: Seq<char>, platform: Platform) -> Option<Seq<char>> {
    match platform {
        Platform::Linux => Some(
            if is_admin(user) {
                "/root/.cache/phantom_ci/"@
            } else {
                "/home/"@ + user + "/.cache/phantom_ci/"@
            },
        ),
        Platform::MacOs => Some(
            if is_admin(user) {
                "/var/root/.cache/phantom_ci/"@
            } else {
                "/Users/"@ + user + "/Library/Caches/com.helloimalemur.phantom_ci/"@
            },
        ),
        Platform::Other => None,
    }
}

pub fn default_cache_root(user: &str, platform: Platform) -> (r: Option<String>)
    ensures
        match r {
            Some(s) => cache_root_of(user@, platform) == Some(s@),
            None => cache_root_of(user@, platform) is None,
        },
{
    let admin = contains_text(user, "root");
    match platform {
        Platform::Linux => if admin {
            Some(String::from_str("/root/.cache/phantom_ci/"))
        } else {
            let mut s = String::from_str("/home/");
            s.append(user);
            s.append("/.cache/phantom_ci/");
            Some(s)
        },
        Platform::MacOs => if admin {
            Some(String::from_str("/var/root/.cache/phantom_ci/"))
        } else {
            let mut s = String::from_str("/Users/");
            s.append(user);
            s.append("/Library/Caches/com.helloimalemur.phantom_ci/");
            Some(s)
        },
        Platform::Other => None,
    }
}

} // verus!
