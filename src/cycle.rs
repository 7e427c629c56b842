//! One repository's turn in a poll: detect a change, bring the working copy
//! to the new tip, then run the branch's workflow.
//!
//! The cycle asks its caller for outside work through the phase it is in, and
//! hands back the job-store writes and notifications to perform as effects.

use vstd::prelude::*;
use crate::detect::{detect_next, ChangeDetector, ChangeOutcome, DetectAction, DetectEvent};
use crate::repo::Repo;
use crate::sync::{sync_next, sync_step_name, SyncAction, SyncEngine, SyncEvent};
use crate::workflow::{
    effect_is_log,
    effect_is_notify,
    effect_is_warn,
    has_order,
    ignored_key_warning,
    ignored_keys,
    ignored_key_warnings,
    last_command_for,
    start_message,
    step_message,
    summary_message,
    ordered_steps_of,
    order_steps,
    Effect,
    JobStatus,
    StepOutcome,
    WorkflowRun,
};

verus! {

/// Where a repository's turn stands.
pub enum Phase {
    /// Waiting for the missing working copy to be cloned.
    Cloning,
    /// Detecting a change; the detector names the work it waits for.
    Detecting(ChangeDetector),
    /// Syncing the working copy; the engine names the work it waits for.
    Syncing(SyncEngine),
    /// Waiting for the workflow definition of the resolved branch.
    LoadingWorkflow,
    /// Running the workflow; the run names the step to execute.
    Running(WorkflowRun),
    /// The turn is over.
    Done,
}

pub struct RepoCycle {
    pub repo: Repo,
    pub phase: Phase,
    /// A first turn for a newly registered repository: it records a baseline
    /// and never runs the workflow.
    pub preparing: bool,
    pub has_working_copy: bool,
    /// What detection concluded, once it has.
    pub detected: Option<ChangeOutcome>,
    /// Whether the working copy reached the remote tip.
    pub synced: bool,
}

pub open spec fn log_of(effects: Seq<Effect>, m: Seq<char>) -> bool {
    effects.len() == 1 && effect_is_log(effects[0], m)
}

impl RepoCycle {
    /// The cycle's invariant. In particular a workflow is only loaded or run
    /// after detection recorded a change and the sync succeeded, and a turn
    /// that prepares a repository never gets that far.
    pub open spec fn wf(&self) -> bool {
        &&& match self.phase {
            Phase::Cloning => self.preparing && self.detected is None,
            Phase::Detecting(d) => !d.is_finished() && self.detected is None && ((d.pending is Fetch
                || d.pending is QueryRemote) ==> d.branch@.len() == 0),
            Phase::Syncing(s) => !s.is_finished() && !self.preparing && self.detected == Some(
                ChangeOutcome::Changed,
            ) && self.repo.triggered,
            Phase::LoadingWorkflow => !self.preparing && self.detected == Some(ChangeOutcome::Changed)
                && self.synced && !self.repo.triggered,
            Phase::Running(r) => r.wf() && r.pending_index() is Some && !self.preparing
                && self.detected == Some(ChangeOutcome::Changed) && self.synced
                && !self.repo.triggered,
            Phase::Done => true,
        }
    }

    /// A regular turn: detection comes first.
    pub fn start(repo: Repo, has_working_copy: bool) -> (r: RepoCycle)
        ensures
            r.wf(),
            r.repo == repo,
            !r.preparing,
            r.phase matches Phase::Detecting(d) && d.pending is Fetch && d.preferred
                == repo.preferred_branch && d.branch@.len() == 0 && d.tip@.len() == 0 && !d.baseline,
    {
        let d = ChangeDetector::start(repo.preferred_branch.clone());
        RepoCycle {
            repo,
            phase: Phase::Detecting(d),
            preparing: false,
            has_working_copy,
            detected: None,
            synced: false,
        }
    }

    /// The first turn of a newly registered repository: clone it if needed,
    /// resolve its branch and record the baseline commit.
    pub fn prepare(repo: Repo, has_working_copy: bool) -> (r: RepoCycle)
        ensures
            r.wf(),
            r.repo == repo,
            r.preparing,
            has_working_copy ==> (r.phase matches Phase::Detecting(d) && d.pending is Fetch
                && d.preferred == repo.preferred_branch && d.branch@.len() == 0 && d.tip@.len() == 0
                && !d.baseline),
            !has_working_copy ==> r.phase is Cloning,
    {
        if has_working_copy {
            let d = ChangeDetector::start(repo.preferred_branch.clone());
            RepoCycle {
                repo,
                phase: Phase::Detecting(d),
                preparing: true,
                has_working_copy,
                detected: None,
                synced: false,
            }
        } else {
            RepoCycle {
                repo,
                phase: Phase::Cloning,
                preparing: true,
                has_working_copy,
                detected: None,
                synced: false,
            }
        }
    }

    /// Whether the clone succeeded.
    pub fn on_cloned(&mut self, ok: bool) -> (effects: Vec<Effect>)
        requires
            old(self).wf(),
            old(self).phase is Cloning,
        ensures
            final(self).wf(),
            final(self).repo == old(self).repo,
            final(self).preparing == old(self).preparing,
            ok ==> final(self).has_working_copy && effects@.len() == 0
                && (final(self).phase matches Phase::Detecting(d) && d.pending is Fetch
                && d.preferred == old(self).repo.preferred_branch && d.branch@.len() == 0
                && d.tip@.len() == 0 && !d.baseline),
            !ok ==> final(self).phase is Done && log_of(
                effects@,
                "Failed to clone: "@ + old(self).repo.path@,
            ),
    {
        let mut effects: Vec<Effect> = Vec::new();
        if ok {
            self.has_working_copy = true;
            self.phase = Phase::Detecting(ChangeDetector::start(self.repo.preferred_branch.clone()));
        } else {
            let mut m = String::from_str("Failed to clone: ");
            m.append(self.repo.path.as_str());
            effects.push(Effect::Log(m));
            self.phase = Phase::Done;
        }
        effects
    }

    /// Answers the detector's pending work. When detection ends, the
    /// repository takes in its result; a change, outside a preparing turn,
    /// moves on to the sync.
    pub fn on_detect(&mut self, ev: DetectEvent) -> (effects: Vec<Effect>)
        requires
            old(self).wf(),
            old(self).phase is Detecting,
        ensures
            final(self).wf(),
            final(self).preparing == old(self).preparing,
            final(self).repo.name == old(self).repo.name,
            final(self).repo.path == old(self).repo.path,
            final(self).repo.preferred_branch == old(self).repo.preferred_branch,
            ({
                let d2 = detect_next(old(self).phase->Detecting_0, ev);
                if !d2.is_finished() {
                    final(self).phase == Phase::Detecting(d2) && final(self).repo == old(self).repo
                        && effects@.len() == 0
                } else {
                    &&& final(self).detected == Some(d2.outcome())
                    &&& (old(self).phase->Detecting_0.pending is Fetch || old(
                        self,
                    ).phase->Detecting_0.pending is QueryRemote) ==> final(self).repo.target_branch
                        == old(self).repo.target_branch
                    &&& final(self).repo.target_branch == (if d2.branch@.len() > 0 {
                        d2.branch
                    } else {
                        old(self).repo.target_branch
                    })
                    &&& final(self).repo.last_sha == (match d2.outcome() {
                        ChangeOutcome::NoChange | ChangeOutcome::FirstSeen | ChangeOutcome::Changed => Some(d2.tip),
                        _ => old(self).repo.last_sha,
                    })
                    &&& (d2.outcome() == ChangeOutcome::Changed && !old(self).preparing) ==> (
                    final(self).phase matches Phase::Syncing(s) && s.url == old(self).repo.path
                        && s.branch == final(self).repo.target_branch && s.pending == (
                    if old(self).has_working_copy {
                        SyncAction::Fetch
                    } else {
                        SyncAction::Clone
                    }))
                    &&& !(d2.outcome() == ChangeOutcome::Changed && !old(self).preparing) ==> (
                    final(self).phase is Done && final(self).repo.triggered == (old(
                        self,
                    ).repo.triggered && !old(self).preparing))
                    &&& d2.outcome() == ChangeOutcome::Error ==> log_of(
                        effects@,
                        "Failed to check for changes: "@ + old(self).repo.path@,
                    )
                    &&& d2.outcome() == ChangeOutcome::Changed ==> log_of(
                        effects@,
                        "Change detected in repo: "@ + old(self).repo.path@ + "\nNew SHA: "@
                            + d2.tip@,
                    )
                    &&& (d2.outcome() == ChangeOutcome::NoChange || d2.outcome()
                        == ChangeOutcome::FirstSeen) ==> effects@.len() == 0
                }
            }),
    {
        let mut effects: Vec<Effect> = Vec::new();
        match &mut self.phase {
            Phase::Detecting(d) => d.step(ev),
            _ => {},
        }
        let outcome = match &self.phase {
            Phase::Detecting(d) => match &d.pending {
                DetectAction::Finish(o) => *o,
                _ => {
                    return effects;
                },
            },
            _ => {
                return effects;
            },
        };
        self.detected = Some(outcome);
        match &self.phase {
            Phase::Detecting(d) => {
                self.repo.apply_detection(d);
                match outcome {
                    ChangeOutcome::Error => {
                        let mut m = String::from_str("Failed to check for changes: ");
                        m.append(self.repo.path.as_str());
                        effects.push(Effect::Log(m));
                    },
                    ChangeOutcome::Changed => {
                        let mut m = String::from_str("Change detected in repo: ");
                        m.append(self.repo.path.as_str());
                        m.append("\nNew SHA: ");
                        m.append(d.tip.as_str());
                        effects.push(Effect::Log(m));
                    },
                    _ => {},
                }
            },
            _ => {},
        }
        if outcome == ChangeOutcome::Changed && !self.preparing {
            let s = SyncEngine::start(
                self.repo.path.clone(),
                self.repo.target_branch.clone(),
                self.has_working_copy,
            );
            self.phase = Phase::Syncing(s);
        } else {
            if self.preparing {
                self.repo.take_trigger();
            }
            self.phase = Phase::Done;
        }
        effects
    }

    /// Answers the sync engine's pending work. A successful sync marks the
    /// job running, stamps its start and consumes the trigger; a failed one
    /// ends the turn, dropping the trigger: the recorded commit stays.
    pub fn on_sync(&mut self, ev: SyncEvent) -> (effects: Vec<Effect>)
        requires
            old(self).wf(),
            old(self).phase is Syncing,
        ensures
            final(self).wf(),
            final(self).preparing == old(self).preparing,
            final(self).detected == old(self).detected,
            final(self).repo.name == old(self).repo.name,
            final(self).repo.path == old(self).repo.path,
            final(self).repo.target_branch == old(self).repo.target_branch,
            final(self).repo.last_sha == old(self).repo.last_sha,
            ({
                let s2 = sync_next(old(self).phase->Syncing_0, ev);
                match s2.pending {
                    SyncAction::Finish(ok) => if ok {
                        &&& final(self).phase is LoadingWorkflow
                        &&& final(self).synced
                        &&& !final(self).repo.triggered
                        &&& effects@ == seq![Effect::SetStatus(JobStatus::Running), Effect::MarkStart]
                    } else {
                        &&& final(self).phase is Done
                        &&& !final(self).repo.triggered
                        &&& log_of(
                            effects@,
                            "Sync failed: "@ + old(self).repo.path@ + " at "@ + sync_step_name(
                                old(self).phase->Syncing_0.pending,
                            ),
                        )
                    },
                    _ => final(self).phase == Phase::Syncing(s2) && final(self).repo == old(
                        self,
                    ).repo && effects@.len() == 0,
                }
            }),
    {
        let mut effects: Vec<Effect> = Vec::new();
        let step_name = match &self.phase {
            Phase::Syncing(s) => s.pending_step_name(),
            _ => "none",
        };
        match &mut self.phase {
            Phase::Syncing(s) => s.step(ev),
            _ => {},
        }
        let ok = match &self.phase {
            Phase::Syncing(s) => match &s.pending {
                SyncAction::Finish(ok) => *ok,
                _ => {
                    return effects;
                },
            },
            _ => {
                return effects;
            },
        };
        self.repo.take_trigger();
        if ok {
            self.synced = true;
            effects.push(Effect::SetStatus(JobStatus::Running));
            effects.push(Effect::MarkStart);
            self.phase = Phase::LoadingWorkflow;
        } else {
            let mut m = String::from_str("Sync failed: ");
            m.append(self.repo.path.as_str());
            m.append(" at ");
            m.append(step_name);
            effects.push(Effect::Log(m));
            self.phase = Phase::Done;
        }
        effects
    }

    /// Hands over the workflow definition's entries `(key, command)` and the
    /// host's name. Each key that spells no number is warned about and
    /// ignored; the run opens with a log entry, and starts exactly when some
    /// key spells a number. A definition without steps fails at once.
    pub fn on_workflow(&mut self, entries: &Vec<(String, String)>, host: &str) -> (effects: Vec<
        Effect,
    >)
        requires
            old(self).wf(),
            old(self).phase is LoadingWorkflow,
        ensures
            final(self).wf(),
            final(self).repo == old(self).repo,
            ({
                let ignored = ignored_keys(entries@);
                let w = ignored.len() as int;
                let summary = summary_message(
                    old(self).repo.path@,
                    old(self).repo.target_branch@,
                    JobStatus::Failed,
                );
                &&& effects@.len() > w
                &&& forall|i: int|
                    0 <= i < w ==> effect_is_warn(
                        #[trigger] effects@[i],
                        ignored_key_warning(ignored[i]),
                    )
                &&& effect_is_log(
                    effects@[w as int],
                    start_message(old(self).repo.path@, old(self).repo.target_branch@, host@),
                )
                &&& (final(self).phase is Running <==> exists|n: u64|
                    #[trigger] last_command_for(entries@, n) is Some)
                &&& final(self).phase is Running ==> effects@.len() == w + 1
                &&& !(final(self).phase is Running) ==> final(self).phase is Done
                    && effects@.len() == w + 5 && effect_is_log(effects@[w + 1], summary)
                    && effect_is_notify(effects@[w + 2], summary) && effects@[w + 3]
                    == Effect::SetStatus(JobStatus::Failed) && effects@[w + 4] == Effect::MarkFinish
            }),
            final(self).phase is Running ==> ({
                let r = final(self).phase->Running_0;
                ordered_steps_of(entries@, r.steps@) && r.completed == 0 && !r.failed
                    && r.repo_path == old(self).repo.path && r.branch == old(
                    self,
                ).repo.target_branch && r.repo_name == old(self).repo.name
            }),
    {
        let mut effects = ignored_key_warnings(entries);
        let steps = order_steps(entries);
        proof {
            if exists|n: u64| #[trigger] last_command_for(entries@, n) is Some {
                let n = choose|n: u64| #[trigger] last_command_for(entries@, n) is Some;
                assert(has_order(steps@, n));
            }
            if steps@.len() > 0 {
                assert(last_command_for(entries@, steps@[0].order) is Some);
            }
        }
        let run = WorkflowRun::new(
            self.repo.name.clone(),
            self.repo.path.clone(),
            self.repo.target_branch.clone(),
            steps,
        );
        effects.push(Effect::Log(run.start_message(host)));
        match run.current() {
            Some(_) => {
                self.phase = Phase::Running(run);
            },
            None => {
                let mut fin = run.finish();
                effects.append(&mut fin);
                effects.push(Effect::SetStatus(JobStatus::Failed));
                effects.push(Effect::MarkFinish);
                self.phase = Phase::Done;
            },
        }
        effects
    }

    /// Records the outcome of the step that ran. When the run ends, its
    /// summary follows, with the final status and finish time.
    pub fn on_step(&mut self, outcome: &StepOutcome) -> (effects: Vec<Effect>)
        requires
            old(self).wf(),
            old(self).phase is Running,
        ensures
            final(self).wf(),
            final(self).repo == old(self).repo,
            ({
                let r = old(self).phase->Running_0;
                let fails = !outcome.succeeded;
                let last = outcome.succeeded && r.completed + 1 == r.steps.len();
                let m = step_message(r.repo_name@, r.steps@[r.completed as int].command@, *outcome);
                let summary = |s: JobStatus| summary_message(r.repo_path@, r.branch@, s);
                &&& (fails || last) ==> final(self).phase is Done
                &&& !(fails || last) ==> (final(self).phase matches Phase::Running(r2)
                    && r2.completed == r.completed + 1 && !r2.failed && r2.steps == r.steps)
                &&& effect_is_log(effects@[0], m)
                &&& fails ==> effects@.len() == 6 && effect_is_notify(effects@[1], m)
                    && effect_is_log(effects@[2], summary(JobStatus::Failed)) && effect_is_notify(
                    effects@[3],
                    summary(JobStatus::Failed),
                ) && effects@[4] == Effect::SetStatus(JobStatus::Failed) && effects@[5]
                    == Effect::MarkFinish
                &&& last ==> effects@.len() == 5 && effect_is_log(
                    effects@[1],
                    summary(JobStatus::Success),
                ) && effect_is_notify(effects@[2], summary(JobStatus::Success)) && effects@[3]
                    == Effect::SetStatus(JobStatus::Success) && effects@[4] == Effect::MarkFinish
                &&& !(fails || last) ==> effects@.len() == 1
            }),
    {
        let mut effects: Vec<Effect> = match &mut self.phase {
            Phase::Running(run) => run.record(outcome),
            _ => {
                return Vec::new();
            },
        };
        let (status, mut fin) = match &self.phase {
            Phase::Running(run) => match run.current() {
                Some(_) => {
                    return effects;
                },
                None => (run.status(), run.finish()),
            },
            _ => {
                return effects;
            },
        };
        effects.append(&mut fin);
        effects.push(Effect::SetStatus(status));
        effects.push(Effect::MarkFinish);
        self.phase = Phase::Done;
        effects
    }
}

} // verus!
