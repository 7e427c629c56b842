//! Records of the job store: one job per repository and branch, and an
//! append-only log. Rows are read by the caller; the queries here select among
//! them.

use vstd::prelude::*;
use crate::text::{find_text, first_occurrence};

verus! {

/// One job row: the build record of a repository's branch.
#[derive(Clone, Debug)]
pub struct Job {
    pub id: i32,
    pub repo: String,
    pub status: String,
    pub priority: i32,
    pub created_at: String,
    pub updated_at: String,
    pub start_time: String,
    pub finish_time: String,
    pub error_message: String,
    pub result: String,
    pub sha: String,
    pub target_branch: String,
}

/// One log entry of a repository.
#[derive(Clone, Debug)]
pub struct JobLog {
    pub id: i32,
    pub repo: String,
    pub log_message: String,
    pub logged_at: String,
}

pub open spec fn job_is_for(j: Job, repo: Seq<char>, branch: Seq<char>) -> bool {
    j.repo@ == repo && j.target_branch@ == branch
}

pub open spec fn jobs_with_status(jobs: Seq<Job>, status: Seq<char>) -> Seq<Job> {
    jobs.filter(|j: Job| j.status@ == status)
}

pub open spec fn jobs_for(jobs: Seq<Job>, repo: Seq<char>, branch: Seq<char>) -> Seq<Job> {
    jobs.filter(|j: Job| job_is_for(j, repo, branch))
}

pub open spec fn logs_for(logs: Seq<JobLog>, repo: Seq<char>) -> Seq<JobLog> {
    logs.filter(|l: JobLog| l.repo@ == repo)
}

/// The commit of the last job row for the repository's branch; empty when
/// there is none.
pub open spec fn recorded_sha(jobs: Seq<Job>, repo: Seq<char>, branch: Seq<char>) -> Seq<char>
    decreases jobs.len(),
{
    if jobs.len() == 0 {
        Seq::empty()
    } else if job_is_for(jobs.last(), repo, branch) {
        jobs.last().sha@
    } else {
        recorded_sha(jobs.drop_last(), repo, branch)
    }
}

impl Job {
    /// A fresh row for a repository's branch, holding the baseline commit.
    pub fn new_for(repo: String, target_branch: String, sha: String) -> (r: Job)
        ensures
            r.repo == repo,
            r.target_branch == target_branch,
            r.sha == sha,
            r.status@.len() == 0,
            r.id == 0,
            r.priority == 0,
            r.created_at@.len() == 0,
            r.updated_at@.len() == 0,
            r.start_time@.len() == 0,
            r.finish_time@.len() == 0,
            r.error_message@.len() == 0,
            r.result@.len() == 0,
    {
        Job {
            id: 0,
            repo,
            status: String::new(),
            priority: 0,
            created_at: String::new(),
            updated_at: String::new(),
            start_time: String::new(),
            finish_time: String::new(),
            error_message: String::new(),
            result: String::new(),
            sha,
            target_branch,
        }
    }

    /// A field-by-field copy.
    pub fn duplicate(&self) -> (r: Job)
        ensures
            r == *self,
    {
        Job {
            id: self.id,
            repo: self.repo.clone(),
            status: self.status.clone(),
            priority: self.priority,
            created_at: self.created_at.clone(),
            updated_at: self.updated_at.clone(),
            start_time: self.start_time.clone(),
            finish_time: self.finish_time.clone(),
            error_message: self.error_message.clone(),
            result: self.result.clone(),
            sha: self.sha.clone(),
            target_branch: self.target_branch.clone(),
        }
    }

    /// Whether a job row exists for the repository's branch.
    pub fn check_exists(jobs: &Vec<Job>, repo: String, target_branch: String) -> (r: bool)
        ensures
            r == exists|i: int| 0 <= i < jobs@.len() && job_is_for(#[trigger] jobs@[i], repo@, target_branch@),
    {
        let mut i: usize = 0;
        while i < jobs.len()
            invariant
                i <= jobs.len(),
                forall|k: int| 0 <= k < i ==> !job_is_for(#[trigger] jobs@[k], repo@, target_branch@),
            decreases jobs.len() - i,
        {
            if jobs[i].repo == repo && jobs[i].target_branch == target_branch {
                return true;
            }
            i = i + 1;
        }
        false
    }

    /// The rows with the given status, in their order.
    pub fn get_jobs_by_status(jobs: &Vec<Job>, status: String) -> (r: Vec<Job>)
        ensures
            r@ == jobs_with_status(jobs@, status@),
    {
        let mut r: Vec<Job> = Vec::new();
        let mut i: usize = 0;
        while i < jobs.len()
            invariant
                i <= jobs.len(),
                r@ == jobs_with_status(jobs@.take(i as int), status@),
            decreases jobs.len() - i,
        {
            reveal(Seq::filter);
            assert(jobs@.take(i + 1).drop_last() =~= jobs@.take(i as int));
            if jobs[i].status == status {
                r.push(jobs[i].duplicate());
            }
            i = i + 1;
        }
        assert(jobs@.take(jobs@.len() as int) =~= jobs@);
        r
    }

    /// The rows of the repository's branch, in their order.
    pub fn get_jobs_by_repo(jobs: &Vec<Job>, repo: String, target_branch: String) -> (r: Vec<Job>)
        ensures
            r@ == jobs_for(jobs@, repo@, target_branch@),
    {
        let mut r: Vec<Job> = Vec::new();
        let mut i: usize = 0;
        while i < jobs.len()
            invariant
                i <= jobs.len(),
                r@ == jobs_for(jobs@.take(i as int), repo@, target_branch@),
            decreases jobs.len() - i,
        {
            reveal(Seq::filter);
            assert(jobs@.take(i + 1).drop_last() =~= jobs@.take(i as int));
            if jobs[i].repo == repo && jobs[i].target_branch == target_branch {
                r.push(jobs[i].duplicate());
            }
            i = i + 1;
        }
        assert(jobs@.take(jobs@.len() as int) =~= jobs@);
        r
    }

    /// The commit last recorded for the repository's branch (empty when none is).
    pub fn recorded_sha(jobs: &Vec<Job>, repo: String, target_branch: String) -> (r: String)
        ensures
            r@ == recorded_sha(jobs@, repo@, target_branch@),
    {
        let mut i: usize = jobs.len();
        assert(jobs@.take(i as int) =~= jobs@);
        while i > 0
            invariant
                i <= jobs.len(),
                recorded_sha(jobs@, repo@, target_branch@) == recorded_sha(
                    jobs@.take(i as int),
                    repo@,
                    target_branch@,
                ),
            decreases i,
        {
            assert(jobs@.take(i as int).drop_last() =~= jobs@.take(i - 1));
            if jobs[i - 1].repo == repo && jobs[i - 1].target_branch == target_branch {
                return jobs[i - 1].sha.clone();
            }
            i = i - 1;
        }
        String::new()
    }
}

pub open spec fn opt_contains(hay: Seq<char>, needle: Option<Seq<char>>) -> bool {
    match needle {
        Some(n) => first_occurrence(hay, n) is Some,
        None => true,
    }
}

/// An entry passes the filters: its repository's locator contains `sub` and
/// equals `repo`, and its message contains `branch`, for each one given.
pub open spec fn log_selected(
    l: JobLog,
    sub: Option<Seq<char>>,
    repo: Option<Seq<char>>,
    branch: Option<Seq<char>>,
) -> bool {
    &&& opt_contains(l.repo@, sub)
    &&& match repo {
        Some(r) => l.repo@ == r,
        None => true,
    }
    &&& opt_contains(l.log_message@, branch)
}

/// The last `limit` entries that pass the filters (all of them when `limit`
/// is 0), in their order.
pub open spec fn selected_logs(
    logs: Seq<JobLog>,
    sub: Option<Seq<char>>,
    repo: Option<Seq<char>>,
    branch: Option<Seq<char>>,
    limit: nat,
) -> Seq<JobLog> {
    let f = logs.filter(|l: JobLog| log_selected(l, sub, repo, branch));
    if limit == 0 || f.len() <= limit {
        f
    } else {
        f.subrange(f.len() - limit, f.len() as int)
    }
}

fn opt_contains_exec(hay: &String, needle: &Option<String>) -> (r: bool)
    ensures
        r == opt_contains(hay@, crate::branch::opt_view(*needle)),
{
    match needle {
        Some(n) => find_text(hay.as_str(), n.as_str()).is_some(),
        None => true,
    }
}

impl JobLog {
    /// A field-by-field copy.
    pub fn duplicate(&self) -> (r: JobLog)
        ensures
            r == *self,
    {
        JobLog {
            id: self.id,
            repo: self.repo.clone(),
            log_message: self.log_message.clone(),
            logged_at: self.logged_at.clone(),
        }
    }

    /// Selects entries for display.
    pub fn select_logs(
        logs: &Vec<JobLog>,
        sub: &Option<String>,
        repo: &Option<String>,
        branch: &Option<String>,
        limit: usize,
    ) -> (r: Vec<JobLog>)
        ensures
            r@ == selected_logs(
                logs@,
                crate::branch::opt_view(*sub),
                crate::branch::opt_view(*repo),
                crate::branch::opt_view(*branch),
                limit as nat,
            ),
    {
        let ghost sv = crate::branch::opt_view(*sub);
        let ghost rv = crate::branch::opt_view(*repo);
        let ghost bv = crate::branch::opt_view(*branch);
        let mut f: Vec<JobLog> = Vec::new();
        let mut i: usize = 0;
        while i < logs.len()
            invariant
                i <= logs.len(),
                sv == crate::branch::opt_view(*sub),
                rv == crate::branch::opt_view(*repo),
                bv == crate::branch::opt_view(*branch),
                f@ == logs@.take(i as int).filter(|l: JobLog| log_selected(l, sv, rv, bv)),
            decreases logs.len() - i,
        {
            reveal(Seq::filter);
            assert(logs@.take(i + 1).drop_last() =~= logs@.take(i as int));
            let l = &logs[i];
            let repo_ok = match repo {
                Some(r) => l.repo == *r,
                None => true,
            };
            let a = opt_contains_exec(&l.repo, sub);
            let c = opt_contains_exec(&l.log_message, branch);
            let keep = a && repo_ok && c;
            assert(logs@.take(i + 1).last() == logs@[i as int]);
            assert(keep == log_selected(logs@[i as int], sv, rv, bv));
            if keep {
                f.push(l.duplicate());
            }
            i = i + 1;
        }
        assert(logs@.take(logs@.len() as int) =~= logs@);
        if limit == 0 || f.len() <= limit {
            return f;
        }
        let start = f.len() - limit;
        let mut r: Vec<JobLog> = Vec::new();
        let mut k: usize = start;
        while k < f.len()
            invariant
                start <= k <= f.len(),
                r@ == f@.subrange(start as int, k as int),
            decreases f.len() - k,
        {
            r.push(f[k].duplicate());
            assert(f@.subrange(start as int, k + 1) =~= f@.subrange(start as int, k as int).push(f@[k as int]));
            k = k + 1;
        }
        r
    }

    /// The entries of the repository, in their order.
    pub fn get_logs_by_repo(logs: &Vec<JobLog>, repo: String) -> (r: Vec<JobLog>)
        ensures
            r@ == logs_for(logs@, repo@),
    {
        let mut r: Vec<JobLog> = Vec::new();
        let mut i: usize = 0;
        while i < logs.len()
            invariant
                i <= logs.len(),
                r@ == logs_for(logs@.take(i as int), repo@),
            decreases logs.len() - i,
        {
            reveal(Seq::filter);
            assert(logs@.take(i + 1).drop_last() =~= logs@.take(i as int));
            if logs[i].repo == repo {
                r.push(logs[i].duplicate());
            }
            i = i + 1;
        }
        assert(logs@.take(logs@.len() as int) =~= logs@);
        r
    }
}

} // verus!
