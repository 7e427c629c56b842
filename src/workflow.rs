//! Workflow definitions and their fail-fast execution.
//!
//! A definition maps string keys to shell commands. Keys that spell a decimal
//! number give the step's position; the others are ignored. Steps then run in
//! ascending order, and the first failure ends the run.

use vstd::prelude::*;
use crate::text::{decimal_value, parse_decimal, preview, preview_of, split_words, string_views, words};

verus! {

/// One step of a workflow: its position and the command line it runs.
pub struct WorkflowStep {
    pub order: u64,
    pub command: String,
}

/// The command of the last entry whose key spells `n`, if any entry does.
pub open spec fn last_command_for(entries: Seq<(String, String)>, n: u64) -> Option<Seq<char>>
    decreases entries.len(),
{
    if entries.len() == 0 {
        None
    } else if decimal_value(entries.last().0@) == Some(n) {
        Some(entries.last().1@)
    } else {
        last_command_for(entries.drop_last(), n)
    }
}

/// Each step comes strictly after the one before it.
pub open spec fn strictly_ascending(steps: Seq<WorkflowStep>) -> bool {
    forall|i: int, j: int| 0 <= i < j < steps.len() ==> steps[i].order < steps[j].order
}

pub open spec fn has_order(steps: Seq<WorkflowStep>, n: u64) -> bool {
    exists|i: int| 0 <= i < steps.len() && #[trigger] steps[i].order == n
}

/// `steps` is the ordered form of the definition `entries`: ascending, one step
/// per number that some key spells, carrying the command of the last such entry.
pub open spec fn ordered_steps_of(entries: Seq<(String, String)>, steps: Seq<WorkflowStep>) -> bool {
    &&& strictly_ascending(steps)
    &&& forall|i: int|
        0 <= i < steps.len() ==> last_command_for(entries, #[trigger] steps[i].order) == Some(
            steps[i].command@,
        )
    &&& forall|n: u64| #[trigger] last_command_for(entries, n) is Some ==> has_order(steps, n)
}

/// Orders the entries `(key, command)` of a workflow definition into steps.
pub fn order_steps(entries: &Vec<(String, String)>) -> (r: Vec<WorkflowStep>)
    ensures
        ordered_steps_of(entries@, r@),
{
    let mut r: Vec<WorkflowStep> = Vec::new();
    let mut idx: usize = 0;
    while idx < entries.len()
        invariant
            idx <= entries.len(),
            ordered_steps_of(entries@.take(idx as int), r@),
        decreases entries.len() - idx,
    {
        let ghost before = entries@.take(idx as int);
        let ghost after = entries@.take(idx + 1);
        assert(after.drop_last() =~= before);
        assert(after.last() == entries@[idx as int]);
        let key = parse_decimal(entries[idx].0.as_str());
        match key {
            None => {
                assert forall|n: u64| last_command_for(after, n) == last_command_for(before, n) by {}
            },
            Some(k) => {
                let mut p: usize = 0;
                while p < r.len() && r[p].order < k
                    invariant
                        p <= r.len(),
                        forall|j: int| 0 <= j < p ==> r@[j].order < k,
                    decreases r.len() - p,
                {
                    p = p + 1;
                }
                let step = WorkflowStep { order: k, command: entries[idx].1.clone() };
                let ghost old_r = r@;
                if p < r.len() && r[p].order == k {
                    r.set(p, step);
                    assert forall|i: int| 0 <= i < r@.len() implies last_command_for(
                        after,
                        #[trigger] r@[i].order,
                    ) == Some(r@[i].command@) by {
                        if i != p {
                            assert(old_r[i] == r@[i]);
                        }
                    }
                    assert forall|n: u64| #[trigger]
                        last_command_for(after, n) is Some implies has_order(r@, n) by {
                        if n == k {
                            assert(r@[p as int].order == n);
                        } else {
                            assert(last_command_for(after, n) == last_command_for(before, n));
                            assert(has_order(old_r, n));
                            let i = choose|i: int| 0 <= i < old_r.len() && #[trigger] old_r[i].order == n;
                            assert(r@[i].order == n);
                        }
                    }
                } else {
                    r.insert(p, step);
                    assert forall|i: int, j: int| 0 <= i < j < r@.len() implies r@[i].order
                        < r@[j].order by {
                        if j < p {
                        } else if j == p {
                        } else if i < p {
                            assert(r@[j] == old_r[j - 1]);
                        } else if i == p {
                            assert(r@[j] == old_r[j - 1]);
                        } else {
                            assert(r@[j] == old_r[j - 1]);
                            assert(r@[i] == old_r[i - 1]);
                        }
                    }
                    assert forall|i: int| 0 <= i < r@.len() implies last_command_for(
                        after,
                        #[trigger] r@[i].order,
                    ) == Some(r@[i].command@) by {
                        if i < p {
                            assert(r@[i] == old_r[i]);
                        } else if i > p {
                            assert(r@[i] == old_r[i - 1]);
                        }
                    }
                    assert forall|n: u64| #[trigger]
                        last_command_for(after, n) is Some implies has_order(r@, n) by {
                        if n == k {
                            assert(r@[p as int].order == n);
                        } else {
                            assert(last_command_for(after, n) == last_command_for(before, n));
                            assert(has_order(old_r, n));
                            let i = choose|i: int| 0 <= i < old_r.len() && #[trigger] old_r[i].order == n;
                            if i < p {
                                assert(r@[i].order == n);
                            } else {
                                assert(r@[i + 1].order == n);
                            }
                        }
                    }
                }
            },
        }
        idx = idx + 1;
    }
    assert(entries@.take(entries@.len() as int) =~= entries@);
    r
}

/// No two keys of the definition spell the same number.
pub open spec fn numbers_distinct(entries: Seq<(String, String)>) -> bool {
    forall|i: int, j: int|
        0 <= i < j < entries.len() && decimal_value(entries[i].0@) is Some ==> decimal_value(
            (#[trigger] entries[i]).0@,
        ) != decimal_value((#[trigger] entries[j]).0@)
}

proof fn lemma_last_command_source(entries: Seq<(String, String)>, n: u64)
    requires
        last_command_for(entries, n) is Some,
    ensures
        exists|i: int|
            0 <= i < entries.len() && decimal_value((#[trigger] entries[i]).0@) == Some(n)
                && last_command_for(entries, n) == Some(entries[i].1@),
    decreases entries.len(),
{
    if decimal_value(entries.last().0@) == Some(n) {
        assert(entries[entries.len() - 1] == entries.last());
    } else {
        lemma_last_command_source(entries.drop_last(), n);
        let i = choose|i: int|
            0 <= i < entries.drop_last().len() && decimal_value(
                (#[trigger] entries.drop_last()[i]).0@,
            ) == Some(n) && last_command_for(entries.drop_last(), n) == Some(
                entries.drop_last()[i].1@,
            );
        assert(entries[i] == entries.drop_last()[i]);
    }
}

proof fn lemma_last_command_of_entry(entries: Seq<(String, String)>, i: int, n: u64)
    requires
        numbers_distinct(entries),
        0 <= i < entries.len(),
        decimal_value(entries[i].0@) == Some(n),
    ensures
        last_command_for(entries, n) == Some(entries[i].1@),
    decreases entries.len(),
{
    let last = entries.len() - 1;
    if i == last {
        assert(entries.last() == entries[i]);
    } else {
        assert(decimal_value(entries[i].0@) != decimal_value(entries[last].0@));
        assert(entries.last() == entries[last]);
        let rest = entries.drop_last();
        assert(rest[i] == entries[i]);
        assert forall|a: int, b: int|
            0 <= a < b < rest.len() && decimal_value(rest[a].0@) is Some implies decimal_value(
                (#[trigger] rest[a]).0@,
            ) != decimal_value((#[trigger] rest[b]).0@) by {
            assert(rest[a] == entries[a] && rest[b] == entries[b]);
        }
        lemma_last_command_of_entry(rest, i, n);
    }
}

proof fn lemma_same_entries_same_commands(a: Seq<(String, String)>, b: Seq<(String, String)>, n: u64)
    requires
        numbers_distinct(a),
        numbers_distinct(b),
        forall|x: (String, String)| a.contains(x) <==> b.contains(x),
        last_command_for(a, n) is Some,
    ensures
        last_command_for(b, n) == last_command_for(a, n),
{
    lemma_last_command_source(a, n);
    let i = choose|i: int|
        0 <= i < a.len() && decimal_value((#[trigger] a[i]).0@) == Some(n) && last_command_for(a, n)
            == Some(a[i].1@);
    assert(a.contains(a[i]));
    assert(b.contains(a[i]));
    let j = choose|j: int| 0 <= j < b.len() && b[j] == a[i];
    lemma_last_command_of_entry(b, j, n);
}

proof fn lemma_ascending_prefix(
    ea: Seq<(String, String)>,
    eb: Seq<(String, String)>,
    sa: Seq<WorkflowStep>,
    sb: Seq<WorkflowStep>,
    k: nat,
)
    requires
        ordered_steps_of(ea, sa),
        ordered_steps_of(eb, sb),
        forall|n: u64| #[trigger] last_command_for(ea, n) == last_command_for(eb, n),
        k <= sa.len(),
        k <= sb.len(),
    ensures
        forall|i: int| 0 <= i < k ==> (#[trigger] sa[i]).order == sb[i].order,
    decreases k,
{
    if k > 0 {
        lemma_ascending_prefix(ea, eb, sa, sb, (k - 1) as nat);
        let m = k - 1;
        let x = sa[m].order;
        let y = sb[m].order;
        assert(last_command_for(ea, x) is Some);
        assert(last_command_for(eb, x) is Some);
        assert(has_order(sb, x));
        let j = choose|j: int| 0 <= j < sb.len() && #[trigger] sb[j].order == x;
        if j < m {
            assert(sa[j].order == sb[j].order);
            assert(sa[j].order < sa[m].order);
        }
        assert(last_command_for(eb, y) is Some);
        assert(last_command_for(ea, y) is Some);
        assert(has_order(sa, y));
        let t = choose|t: int| 0 <= t < sa.len() && #[trigger] sa[t].order == y;
        if t < m {
            assert(sa[t].order == sb[t].order);
            assert(sb[t].order < sb[m].order);
        }
    }
}

proof fn lemma_ascending_unique(
    ea: Seq<(String, String)>,
    eb: Seq<(String, String)>,
    sa: Seq<WorkflowStep>,
    sb: Seq<WorkflowStep>,
)
    requires
        ordered_steps_of(ea, sa),
        ordered_steps_of(eb, sb),
        forall|n: u64| #[trigger] last_command_for(ea, n) == last_command_for(eb, n),
        sa.len() <= sb.len(),
    ensures
        sa.len() == sb.len(),
        forall|i: int|
            0 <= i < sa.len() ==> (#[trigger] sa[i]).order == sb[i].order && sa[i].command@
                == sb[i].command@,
{
    lemma_ascending_prefix(ea, eb, sa, sb, sa.len());
    if sa.len() < sb.len() {
        let m = sa.len() as int;
        let y = sb[m].order;
        assert(last_command_for(eb, y) is Some);
        assert(last_command_for(ea, y) is Some);
        assert(has_order(sa, y));
        let t = choose|t: int| 0 <= t < sa.len() && #[trigger] sa[t].order == y;
        assert(sa[t].order == sb[t].order);
        assert(sb[t].order < sb[m].order);
    }
    assert forall|i: int| 0 <= i < sa.len() implies (#[trigger] sa[i]).order == sb[i].order
        && sa[i].command@ == sb[i].command@ by {
        assert(last_command_for(ea, sa[i].order) == Some(sa[i].command@));
        assert(last_command_for(eb, sb[i].order) == Some(sb[i].command@));
    }
}

/// The steps do not depend on the order in which a definition's entries are
/// read: two listings of the same entries, where no two keys spell the same
/// number, give the same steps in the same order.
pub proof fn lemma_steps_independent_of_entry_order(
    a: Seq<(String, String)>,
    b: Seq<(String, String)>,
    sa: Seq<WorkflowStep>,
    sb: Seq<WorkflowStep>,
)
    requires
        numbers_distinct(a),
        numbers_distinct(b),
        forall|x: (String, String)| a.contains(x) <==> b.contains(x),
        ordered_steps_of(a, sa),
        ordered_steps_of(b, sb),
    ensures
        sa.len() == sb.len(),
        forall|i: int|
            0 <= i < sa.len() ==> (#[trigger] sa[i]).order == sb[i].order && sa[i].command@
                == sb[i].command@,
{
    assert forall|n: u64| #[trigger] last_command_for(a, n) == last_command_for(b, n) by {
        if last_command_for(a, n) is Some {
            lemma_same_entries_same_commands(a, b, n);
        } else if last_command_for(b, n) is Some {
            lemma_same_entries_same_commands(b, a, n);
        }
    }
    if sa.len() <= sb.len() {
        lemma_ascending_unique(a, b, sa, sb);
    } else {
        lemma_ascending_unique(b, a, sb, sa);
    }
}

/// The state of a job, as the job store records it.
#[derive(PartialEq, Eq, Structural, Clone, Copy, Debug)]
pub enum JobStatus {
    Pending,
    Running,
    Success,
    Failed,
}

pub open spec fn status_text(s: JobStatus) -> Seq<char> {
    match s {
        JobStatus::Pending => "pending"@,
        JobStatus::Running => "running"@,
        JobStatus::Success => "success"@,
        JobStatus::Failed => "failed"@,
    }
}

impl JobStatus {
    /// The word under which the job store keeps this status.
    pub fn label(&self) -> (r: String)
        ensures
            r@ == status_text(*self),
    {
        match self {
            JobStatus::Pending => String::from_str("pending"),
            JobStatus::Running => String::from_str("running"),
            JobStatus::Success => String::from_str("success"),
            JobStatus::Failed => String::from_str("failed"),
        }
    }
}

/// Something the run asks its caller to do on its behalf.
pub enum Effect {
    /// Append a message to the job log.
    Log(String),
    /// Send a message to every notification sink.
    Notify(String),
    /// Set the job's status.
    SetStatus(JobStatus),
    /// Stamp the job's start time.
    MarkStart,
    /// Stamp the job's finish time.
    MarkFinish,
    /// Report something odd that is no error, outside the job log.
    Warn(String),
}

pub open spec fn effect_is_warn(e: Effect, m: Seq<char>) -> bool {
    match e {
        Effect::Warn(s) => s@ == m,
        _ => false,
    }
}

/// The keys of the definition that spell no number, in order.
pub open spec fn ignored_keys(entries: Seq<(String, String)>) -> Seq<Seq<char>> {
    entries.filter(|e: (String, String)| decimal_value(e.0@) is None).map_values(
        |e: (String, String)| e.0@,
    )
}

/// The warning for a key that spells no number.
pub open spec fn ignored_key_warning(key: Seq<char>) -> Seq<char> {
    "Ignoring workflow entry whose key is not a number: "@ + key
}

/// One warning per key of the definition that spells no number, in order.
pub fn ignored_key_warnings(entries: &Vec<(String, String)>) -> (r: Vec<Effect>)
    ensures
        r@.len() == ignored_keys(entries@).len(),
        forall|i: int|
            0 <= i < r@.len() ==> effect_is_warn(
                #[trigger] r@[i],
                ignored_key_warning(ignored_keys(entries@)[i]),
            ),
{
    let mut r: Vec<Effect> = Vec::new();
    let mut idx: usize = 0;
    while idx < entries.len()
        invariant
            idx <= entries.len(),
            r@.len() == ignored_keys(entries@.take(idx as int)).len(),
            forall|i: int|
                0 <= i < r@.len() ==> effect_is_warn(
                    #[trigger] r@[i],
                    ignored_key_warning(ignored_keys(entries@.take(idx as int))[i]),
                ),
        decreases entries.len() - idx,
    {
        let ghost before = entries@.take(idx as int);
        let ghost after = entries@.take(idx + 1);
        let ghost keep = |e: (String, String)| decimal_value(e.0@) is None;
        let ghost key = |e: (String, String)| e.0@;
        proof {
            reveal(Seq::filter);
            assert(after.drop_last() =~= before);
            assert(after.last() == entries@[idx as int]);
        }
        let ghost old_r = r@;
        if parse_decimal(entries[idx].0.as_str()).is_none() {
            let mut m = String::from_str("Ignoring workflow entry whose key is not a number: ");
            m.append(entries[idx].0.as_str());
            r.push(Effect::Warn(m));
            proof {
                assert(after.filter(keep) == before.filter(keep).push(entries@[idx as int]));
                assert(after.filter(keep).map_values(key) =~= before.filter(keep).map_values(
                    key,
                ).push(entries@[idx as int].0@));
                assert forall|i: int| 0 <= i < r@.len() implies effect_is_warn(
                    #[trigger] r@[i],
                    ignored_key_warning(ignored_keys(after)[i]),
                ) by {
                    if i < old_r.len() {
                        assert(r@[i] == old_r[i]);
                    }
                }
            }
        } else {
            proof {
                assert(after.filter(keep) == before.filter(keep));
            }
        }
        idx = idx + 1;
    }
    assert(entries@.take(entries@.len() as int) =~= entries@);
    r
}

pub open spec fn effect_is_log(e: Effect, m: Seq<char>) -> bool {
    match e {
        Effect::Log(s) => s@ == m,
        _ => false,
    }
}

pub open spec fn effect_is_notify(e: Effect, m: Seq<char>) -> bool {
    match e {
        Effect::Notify(s) => s@ == m,
        _ => false,
    }
}

/// What running one step produced.
pub struct StepOutcome {
    /// The program started and exited with a success status.
    pub succeeded: bool,
    pub stdout: String,
    pub stderr: String,
}

/// A program and its arguments.
pub struct CommandLine {
    pub program: String,
    pub args: Vec<String>,
}

/// The program is the first word of the command (empty when it has none),
/// the arguments are the other words.
pub open spec fn command_line_of(cmd: Seq<char>, cl: CommandLine) -> bool {
    let w = words(cmd);
    &&& cl.program@ == (if w.len() > 0 { w[0] } else { Seq::empty() })
    &&& string_views(cl.args@) == (if w.len() > 0 { w.drop_first() } else { Seq::empty() })
}

/// Splits a step's command into program and arguments at blanks.
pub fn command_line(cmd: &str) -> (r: CommandLine)
    ensures
        command_line_of(cmd@, r),
{
    let mut w = split_words(cmd);
    if w.len() == 0 {
        assert(string_views(w@) =~= Seq::<Seq<char>>::empty());
        return CommandLine { program: String::new(), args: w };
    }
    let ghost all = w@;
    let program = w.remove(0);
    assert(string_views(w@) =~= string_views(all).drop_first());
    CommandLine { program, args: w }
}

/// The longest stdout or stderr text kept in a log entry.
pub const PREVIEW_LIMIT: usize = 4000;

/// Fail-fast on three steps: when the first succeeds and the second fails,
/// the run ends there, failed, and the third step never becomes pending.
pub proof fn lemma_fail_fast_three_steps(run: WorkflowRun)
    requires
        run.wf(),
        run.steps.len() == 3,
        run.completed == 0,
        !run.failed,
    ensures
        ({
            let r1 = run.after_outcome(true);
            let r2 = r1.after_outcome(false);
            &&& run.pending_index() == Some(0nat)
            &&& r1.pending_index() == Some(1nat)
            &&& r2.pending_index() is None
            &&& r2.completed == 1
            &&& r2.status_of() == JobStatus::Failed
        }),
{
}

/// The log entry for one step's outcome.
pub open spec fn step_message(repo_name: Seq<char>, cmd: Seq<char>, o: StepOutcome) -> Seq<char> {
    repo_name + " :: "@ + cmd + (if o.succeeded { " :: ok"@ } else { " :: failed"@ })
        + "\nstdout: "@ + preview_of(o.stdout@, PREVIEW_LIMIT as nat) + "\nstderr: "@
        + preview_of(o.stderr@, PREVIEW_LIMIT as nat)
}

/// The log entry and notification that close a run.
pub open spec fn summary_message(path: Seq<char>, branch: Seq<char>, s: JobStatus) -> Seq<char> {
    "Workflow "@ + status_text(s) + ": "@ + path + " ("@ + branch + ")"@
}

/// The log entry that opens a run.
pub open spec fn start_message(path: Seq<char>, branch: Seq<char>, host: Seq<char>) -> Seq<char> {
    "Starting Workflow: "@ + path + "\nTarget Branch: "@ + branch + "\nHost: "@ + host
}

/// One execution of a workflow: steps run in their order, each only after all
/// before it succeeded.
pub struct WorkflowRun {
    pub repo_name: String,
    pub repo_path: String,
    pub branch: String,
    pub steps: Vec<WorkflowStep>,
    /// How many steps have run and succeeded.
    pub completed: usize,
    /// Whether the step after the completed ones has failed.
    pub failed: bool,
}

impl WorkflowRun {
    pub open spec fn wf(&self) -> bool {
        &&& self.completed <= self.steps.len()
        &&& self.failed ==> self.completed < self.steps.len()
    }

    /// The index of the step to run next, if the run goes on.
    pub open spec fn pending_index(&self) -> Option<nat> {
        if !self.failed && self.completed < self.steps.len() {
            Some(self.completed as nat)
        } else {
            None
        }
    }

    /// An empty run fails; a run that ran out of steps without failing succeeds.
    pub open spec fn status_of(&self) -> JobStatus {
        if self.failed || self.steps.len() == 0 {
            JobStatus::Failed
        } else if self.completed == self.steps.len() {
            JobStatus::Success
        } else {
            JobStatus::Running
        }
    }

    /// The run after the pending step ended, successfully or not.
    pub open spec fn after_outcome(self, succeeded: bool) -> WorkflowRun {
        if succeeded {
            WorkflowRun { completed: (self.completed + 1) as usize, ..self }
        } else {
            WorkflowRun { failed: true, ..self }
        }
    }

    /// A run that has not executed any step yet.
    pub fn new(repo_name: String, repo_path: String, branch: String, steps: Vec<WorkflowStep>) -> (r:
        WorkflowRun)
        ensures
            r.wf(),
            r.repo_name == repo_name,
            r.repo_path == repo_path,
            r.branch == branch,
            r.steps == steps,
            r.completed == 0,
            !r.failed,
            steps.len() == 0 ==> r.pending_index() is None && r.status_of() == JobStatus::Failed,
    {
        WorkflowRun { repo_name, repo_path, branch, steps, completed: 0, failed: false }
    }

    /// The log entry that opens the run, naming the host it runs on.
    pub fn start_message(&self, host: &str) -> (r: String)
        ensures
            r@ == start_message(self.repo_path@, self.branch@, host@),
    {
        let mut m = String::from_str("Starting Workflow: ");
        m.append(self.repo_path.as_str());
        m.append("\nTarget Branch: ");
        m.append(self.branch.as_str());
        m.append("\nHost: ");
        m.append(host);
        m
    }

    pub fn current(&self) -> (r: Option<usize>)
        requires
            self.wf(),
        ensures
            match r {
                Some(i) => self.pending_index() == Some(i as nat),
                None => self.pending_index() is None,
            },
    {
        if !self.failed && self.completed < self.steps.len() {
            Some(self.completed)
        } else {
            None
        }
    }

    /// The program and arguments of the step to run next, if the run goes on.
    pub fn next_command(&self) -> (r: Option<CommandLine>)
        requires
            self.wf(),
        ensures
            r is Some <==> self.pending_index() is Some,
            r is Some ==> command_line_of(self.steps@[self.completed as int].command@, r->0),
    {
        if !self.failed && self.completed < self.steps.len() {
            Some(command_line(self.steps[self.completed].command.as_str()))
        } else {
            None
        }
    }

    /// Records the outcome of the step that ran. Every outcome is logged; a
    /// failure is also notified, and ends the run.
    pub fn record(&mut self, outcome: &StepOutcome) -> (effects: Vec<Effect>)
        requires
            old(self).wf(),
            old(self).pending_index() is Some,
        ensures
            final(self).wf(),
            *final(self) == old(self).after_outcome(outcome.succeeded),
            final(self).repo_name == old(self).repo_name,
            final(self).repo_path == old(self).repo_path,
            final(self).branch == old(self).branch,
            final(self).steps == old(self).steps,
            outcome.succeeded ==> final(self).completed == old(self).completed + 1
                && !final(self).failed,
            !outcome.succeeded ==> final(self).completed == old(self).completed && final(self).failed,
            !outcome.succeeded ==> final(self).pending_index() is None && final(self).status_of()
                == JobStatus::Failed,
            ({
                let m = step_message(
                    old(self).repo_name@,
                    old(self).steps@[old(self).completed as int].command@,
                    *outcome,
                );
                if outcome.succeeded {
                    effects@.len() == 1 && effect_is_log(effects@[0], m)
                } else {
                    effects@.len() == 2 && effect_is_log(effects@[0], m) && effect_is_notify(
                        effects@[1],
                        m,
                    )
                }
            }),
    {
        let mut m = self.repo_name.clone();
        m.append(" :: ");
        m.append(self.steps[self.completed].command.as_str());
        if outcome.succeeded {
            m.append(" :: ok");
        } else {
            m.append(" :: failed");
        }
        m.append("\nstdout: ");
        let out = preview(outcome.stdout.as_str(), PREVIEW_LIMIT);
        m.append(out.as_str());
        m.append("\nstderr: ");
        let err = preview(outcome.stderr.as_str(), PREVIEW_LIMIT);
        m.append(err.as_str());
        let mut effects: Vec<Effect> = Vec::new();
        if outcome.succeeded {
            self.completed = self.completed + 1;
            effects.push(Effect::Log(m));
        } else {
            self.failed = true;
            let n = m.clone();
            effects.push(Effect::Log(m));
            effects.push(Effect::Notify(n));
        }
        effects
    }

    pub fn status(&self) -> (r: JobStatus)
        requires
            self.wf(),
        ensures
            r == self.status_of(),
    {
        if self.failed || self.steps.len() == 0 {
            JobStatus::Failed
        } else if self.completed == self.steps.len() {
            JobStatus::Success
        } else {
            JobStatus::Running
        }
    }

    /// The summary that closes a finished run: logged and notified whatever
    /// the outcome.
    pub fn finish(&self) -> (effects: Vec<Effect>)
        requires
            self.wf(),
            self.pending_index() is None,
        ensures
            self.status_of() == JobStatus::Success || self.status_of() == JobStatus::Failed,
            effects@.len() == 2,
            effect_is_log(
                effects@[0],
                summary_message(self.repo_path@, self.branch@, self.status_of()),
            ),
            effect_is_notify(
                effects@[1],
                summary_message(self.repo_path@, self.branch@, self.status_of()),
            ),
    {
        let status = self.status();
        let mut m = String::from_str("Workflow ");
        let label = status.label();
        m.append(label.as_str());
        m.append(": ");
        m.append(self.repo_path.as_str());
        m.append(" (");
        m.append(self.branch.as_str());
        m.append(")");
        let n = m.clone();
        let mut effects: Vec<Effect> = Vec::new();
        effects.push(Effect::Log(m));
        effects.push(Effect::Notify(n));
        effects
    }
}

} // verus!
