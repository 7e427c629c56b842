//! Change detection: compares the remote tip of the resolved branch with the
//! last commit that the job store holds, and decides whether a build fires.
//!
//! The detector asks for one outside action at a time (`pending`) and moves on
//! with the answer that its caller hands back in `step`.

use vstd::prelude::*;
use crate::branch::{resolve_branch, resolved_branch};

verus! {

/// What one round of change detection concluded.
#[derive(PartialEq, Eq, Structural, Clone, Copy, Debug)]
pub enum ChangeOutcome {
    /// The remote tip is the commit already recorded.
    NoChange,
    /// Nothing was recorded yet: the tip became the baseline, and no build fires.
    FirstSeen,
    /// The tip moved; the new commit is recorded, and a build fires.
    Changed,
    /// A fetch, a remote query or a write failed: nothing is triggered.
    Error,
}

/// The outside work that the detector waits for.
pub enum DetectAction {
    /// Fetch the remote's refs.
    Fetch,
    /// Tell whether the remote has the preferred branch, and what its default branch is.
    QueryRemote(String),
    /// Read the remote tip commit of the branch.
    ReadTip(String),
    /// Read the last commit recorded for the branch (empty when there is none).
    ReadRecorded(String),
    /// Record the commit for the branch.
    Record(String, String),
    /// Detection is over.
    Finish(ChangeOutcome),
}

/// The answer to a `DetectAction`.
pub enum DetectEvent {
    Fetched(bool),
    Remote { preferred_exists: bool, default_branch: Option<String> },
    Tip(Option<String>),
    Recorded(String),
    Stored(bool),
}

pub struct ChangeDetector {
    /// The work the detector waits for.
    pub pending: DetectAction,
    /// The branch the repository prefers (empty for the remote's default).
    pub preferred: String,
    /// The branch resolved in this round.
    pub branch: String,
    /// The remote tip read in this round.
    pub tip: String,
    /// Whether the commit being recorded is a first baseline.
    pub baseline: bool,
}

pub open spec fn finished_with(d: ChangeDetector, o: ChangeOutcome) -> ChangeDetector {
    ChangeDetector { pending: DetectAction::Finish(o), ..d }
}

/// The detector after answering its pending work with `ev`. An answer of the
/// wrong kind ends the round with an error.
pub open spec fn detect_next(d: ChangeDetector, ev: DetectEvent) -> ChangeDetector {
    match d.pending {
        DetectAction::Fetch => match ev {
            DetectEvent::Fetched(ok) => if ok {
                ChangeDetector { pending: DetectAction::QueryRemote(d.preferred), ..d }
            } else {
                finished_with(d, ChangeOutcome::Error)
            },
            _ => finished_with(d, ChangeOutcome::Error),
        },
        DetectAction::QueryRemote(_) => match ev {
            DetectEvent::Remote { preferred_exists, default_branch } => {
                match resolved_branch(d.preferred, preferred_exists, default_branch) {
                    Some(branch) => ChangeDetector {
                        pending: DetectAction::ReadTip(branch),
                        branch,
                        ..d
                    },
                    None => finished_with(d, ChangeOutcome::Error),
                }
            },
            _ => finished_with(d, ChangeOutcome::Error),
        },
        DetectAction::ReadTip(b) => match ev {
            DetectEvent::Tip(t) => match t {
                Some(tip) => ChangeDetector {
                    pending: DetectAction::ReadRecorded(b),
                    tip,
                    ..d
                },
                None => finished_with(d, ChangeOutcome::Error),
            },
            _ => finished_with(d, ChangeOutcome::Error),
        },
        DetectAction::ReadRecorded(b) => match ev {
            DetectEvent::Recorded(last) => if last@.len() == 0 {
                ChangeDetector { pending: DetectAction::Record(b, d.tip), baseline: true, ..d }
            } else if last@ == d.tip@ {
                finished_with(d, ChangeOutcome::NoChange)
            } else {
                ChangeDetector { pending: DetectAction::Record(b, d.tip), baseline: false, ..d }
            },
            _ => finished_with(d, ChangeOutcome::Error),
        },
        DetectAction::Record(_, _) => match ev {
            DetectEvent::Stored(ok) => if !ok {
                finished_with(d, ChangeOutcome::Error)
            } else if d.baseline {
                finished_with(d, ChangeOutcome::FirstSeen)
            } else {
                finished_with(d, ChangeOutcome::Changed)
            },
            _ => finished_with(d, ChangeOutcome::Error),
        },
        DetectAction::Finish(_) => d,
    }
}

impl ChangeDetector {
    pub open spec fn is_finished(&self) -> bool {
        self.pending is Finish
    }

    pub open spec fn outcome(&self) -> ChangeOutcome {
        match self.pending {
            DetectAction::Finish(o) => o,
            _ => ChangeOutcome::Error,
        }
    }

    /// A detector at the start of a round, for a repository that prefers `preferred`.
    pub fn start(preferred: String) -> (r: ChangeDetector)
        ensures
            r.pending is Fetch,
            r.preferred == preferred,
            r.branch@.len() == 0,
            r.tip@.len() == 0,
            !r.baseline,
    {
        ChangeDetector {
            pending: DetectAction::Fetch,
            preferred,
            branch: String::new(),
            tip: String::new(),
            baseline: false,
        }
    }

    /// Answers the pending work.
    pub fn step(&mut self, ev: DetectEvent)
        requires
            !old(self).is_finished(),
        ensures
            *final(self) == detect_next(*old(self), ev),
    {
        let ghost d = *self;
        match &self.pending {
            DetectAction::Fetch => match ev {
                DetectEvent::Fetched(ok) => if ok {
                    self.pending = DetectAction::QueryRemote(self.preferred.clone());
                } else {
                    self.pending = DetectAction::Finish(ChangeOutcome::Error);
                },
                _ => self.pending = DetectAction::Finish(ChangeOutcome::Error),
            },
            DetectAction::QueryRemote(_) => match ev {
                DetectEvent::Remote { preferred_exists, default_branch } => {
                    match resolve_branch(&self.preferred, preferred_exists, default_branch) {
                        Some(b) => {
                            self.pending = DetectAction::ReadTip(b.clone());
                            self.branch = b;
                        },
                        None => self.pending = DetectAction::Finish(ChangeOutcome::Error),
                    }
                },
                _ => self.pending = DetectAction::Finish(ChangeOutcome::Error),
            },
            DetectAction::ReadTip(b) => match ev {
                DetectEvent::Tip(t) => match t {
                    Some(tip) => {
                        self.pending = DetectAction::ReadRecorded(b.clone());
                        self.tip = tip;
                    },
                    None => self.pending = DetectAction::Finish(ChangeOutcome::Error),
                },
                _ => self.pending = DetectAction::Finish(ChangeOutcome::Error),
            },
            DetectAction::ReadRecorded(b) => match ev {
                DetectEvent::Recorded(last) => {
                    if last.as_str().unicode_len() == 0 {
                        self.pending = DetectAction::Record(b.clone(), self.tip.clone());
                        self.baseline = true;
                    } else if last == self.tip {
                        self.pending = DetectAction::Finish(ChangeOutcome::NoChange);
                    } else {
                        self.pending = DetectAction::Record(b.clone(), self.tip.clone());
                        self.baseline = false;
                    }
                },
                _ => self.pending = DetectAction::Finish(ChangeOutcome::Error),
            },
            DetectAction::Record(_, _) => match ev {
                DetectEvent::Stored(ok) => if !ok {
                    self.pending = DetectAction::Finish(ChangeOutcome::Error);
                } else if self.baseline {
                    self.pending = DetectAction::Finish(ChangeOutcome::FirstSeen);
                } else {
                    self.pending = DetectAction::Finish(ChangeOutcome::Changed);
                },
                _ => self.pending = DetectAction::Finish(ChangeOutcome::Error),
            },
            DetectAction::Finish(_) => {},
        }
    }
}

/// The first observation of a branch, with nothing recorded for it, records
/// the tip as a baseline and never triggers a build, whatever the write gives.
pub proof fn lemma_first_observation_never_triggers(
    d: ChangeDetector,
    last: String,
    answer: DetectEvent,
)
    requires
        d.pending is ReadRecorded,
        last@.len() == 0,
    ensures
        ({
            let d1 = detect_next(d, DetectEvent::Recorded(last));
            let d2 = detect_next(d1, answer);
            &&& d1.pending == DetectAction::Record(d.pending->ReadRecorded_0, d.tip)
            &&& d2.is_finished()
            &&& d2.outcome() != ChangeOutcome::Changed
        }),
{
}

/// When the recorded commit is the remote tip, the round ends with `NoChange`
/// at once: nothing is written.
pub proof fn lemma_unchanged_tip_writes_nothing(d: ChangeDetector, last: String)
    requires
        d.pending is ReadRecorded,
        last@.len() > 0,
        last@ == d.tip@,
    ensures
        detect_next(d, DetectEvent::Recorded(last)).pending == DetectAction::Finish(
            ChangeOutcome::NoChange,
        ),
{
}

/// A round ends in `Changed` only on the successful write of the new commit.
pub proof fn lemma_changed_only_after_record(d: ChangeDetector, ev: DetectEvent)
    requires
        !d.is_finished(),
        detect_next(d, ev).outcome() == ChangeOutcome::Changed,
        detect_next(d, ev).is_finished(),
    ensures
        d.pending is Record,
        !d.baseline,
        ev == DetectEvent::Stored(true),
{
}

/// Resolution depends on the preferred branch and the remote's answer alone,
/// never on what an earlier round resolved or read: against an unchanged
/// remote, two rounds resolve the same branch and ask for the same tip.
pub proof fn lemma_resolution_repeatable(d1: ChangeDetector, d2: ChangeDetector, ev: DetectEvent)
    requires
        d1.pending is QueryRemote,
        d2.pending is QueryRemote,
        d1.preferred == d2.preferred,
    ensures
        detect_next(d1, ev).pending == detect_next(d2, ev).pending,
        detect_next(d1, ev).pending is ReadTip ==> detect_next(d1, ev).branch == detect_next(
            d2,
            ev,
        ).branch,
{
}

/// A preferred branch that the remote lacks gives way to the remote's
/// default: the round goes on with that branch instead of failing.
pub proof fn lemma_detection_falls_back_to_default(d: ChangeDetector, default_branch: String)
    requires
        d.pending is QueryRemote,
        default_branch@.len() > 0,
    ensures
        detect_next(
            d,
            DetectEvent::Remote { preferred_exists: false, default_branch: Some(default_branch) },
        ).pending == DetectAction::ReadTip(default_branch),
{
}

} // verus!
