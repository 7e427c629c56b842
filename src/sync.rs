//! Bringing the working copy to the remote tip: fetch (cloning first when
//! there is no working copy), set the remote locator, check out the branch at
//! the remote tip, then fast-forward, falling back to a hard reset.

use vstd::prelude::*;

verus! {

/// The outside work that the sync engine waits for.
pub enum SyncAction {
    /// Clone the remote into the missing working copy.
    Clone,
    /// Fetch the remote's refs.
    Fetch,
    /// Read the remote locator that the working copy has configured.
    ReadRemoteUrl,
    /// Point the working copy's remote at the locator.
    SetRemoteUrl(String),
    /// Create or reset the local branch at the remote branch's tip.
    Checkout(String),
    /// Fast-forward the branch to the remote tip.
    FastForward(String),
    /// Reset the branch hard to the remote tip.
    HardReset(String),
    /// Sync is over: whether the working copy is at the remote tip.
    Finish(bool),
}

/// The answer to a `SyncAction`.
pub enum SyncEvent {
    /// The command ran and succeeded, or not.
    Done(bool),
    /// The configured remote locator, if any.
    RemoteUrl(Option<String>),
}

pub struct SyncEngine {
    pub pending: SyncAction,
    /// The remote locator that the registry holds.
    pub url: String,
    /// The resolved branch.
    pub branch: String,
}

pub open spec fn sync_finished(e: SyncEngine, ok: bool) -> SyncEngine {
    SyncEngine { pending: SyncAction::Finish(ok), ..e }
}

pub open spec fn sync_then(e: SyncEngine, a: SyncAction) -> SyncEngine {
    SyncEngine { pending: a, ..e }
}

/// The engine after answering its pending work with `ev`; an answer of the
/// wrong kind fails the sync.
pub open spec fn sync_next(e: SyncEngine, ev: SyncEvent) -> SyncEngine {
    match (e.pending, ev) {
        (SyncAction::Clone, SyncEvent::Done(ok)) => if ok {
            sync_then(e, SyncAction::Fetch)
        } else {
            sync_finished(e, false)
        },
        (SyncAction::Fetch, SyncEvent::Done(ok)) => if ok {
            sync_then(e, SyncAction::ReadRemoteUrl)
        } else {
            sync_finished(e, false)
        },
        (SyncAction::ReadRemoteUrl, SyncEvent::RemoteUrl(u)) => match u {
            Some(url) => if url@ == e.url@ {
                sync_then(e, SyncAction::Checkout(e.branch))
            } else {
                sync_then(e, SyncAction::SetRemoteUrl(e.url))
            },
            None => sync_then(e, SyncAction::SetRemoteUrl(e.url)),
        },
        (SyncAction::SetRemoteUrl(_), SyncEvent::Done(ok)) => if ok {
            sync_then(e, SyncAction::Checkout(e.branch))
        } else {
            sync_finished(e, false)
        },
        (SyncAction::Checkout(_), SyncEvent::Done(ok)) => if ok {
            sync_then(e, SyncAction::FastForward(e.branch))
        } else {
            sync_finished(e, false)
        },
        (SyncAction::FastForward(_), SyncEvent::Done(ok)) => if ok {
            sync_finished(e, true)
        } else {
            sync_then(e, SyncAction::HardReset(e.branch))
        },
        (SyncAction::HardReset(_), SyncEvent::Done(ok)) => sync_finished(e, ok),
        (SyncAction::Finish(_), _) => e,
        _ => sync_finished(e, false),
    }
}

/// The git command that carries out an action, as failure reports name it.
pub open spec fn sync_step_name(a: SyncAction) -> Seq<char> {
    match a {
        SyncAction::Clone => "git clone"@,
        SyncAction::Fetch => "git fetch"@,
        SyncAction::ReadRemoteUrl => "git remote get-url"@,
        SyncAction::SetRemoteUrl(_) => "git remote set-url"@,
        SyncAction::Checkout(_) => "git checkout -B"@,
        SyncAction::FastForward(_) => "git pull --ff-only"@,
        SyncAction::HardReset(_) => "git reset --hard"@,
        SyncAction::Finish(_) => "none"@,
    }
}

impl SyncEngine {
    /// The git command of the pending action.
    pub fn pending_step_name(&self) -> (r: &'static str)
        ensures
            r@ == sync_step_name(self.pending),
    {
        match &self.pending {
            SyncAction::Clone => "git clone",
            SyncAction::Fetch => "git fetch",
            SyncAction::ReadRemoteUrl => "git remote get-url",
            SyncAction::SetRemoteUrl(_) => "git remote set-url",
            SyncAction::Checkout(_) => "git checkout -B",
            SyncAction::FastForward(_) => "git pull --ff-only",
            SyncAction::HardReset(_) => "git reset --hard",
            SyncAction::Finish(_) => "none",
        }
    }

    pub open spec fn is_finished(&self) -> bool {
        self.pending is Finish
    }

    /// An engine at the start of a sync; a missing working copy is cloned first.
    pub fn start(url: String, branch: String, has_working_copy: bool) -> (r: SyncEngine)
        ensures
            r.url == url,
            r.branch == branch,
            r.pending == (if has_working_copy {
                SyncAction::Fetch
            } else {
                SyncAction::Clone
            }),
    {
        let pending = if has_working_copy {
            SyncAction::Fetch
        } else {
            SyncAction::Clone
        };
        SyncEngine { pending, url, branch }
    }

    /// Answers the pending work.
    pub fn step(&mut self, ev: SyncEvent)
        requires
            !old(self).is_finished(),
        ensures
            *final(self) == sync_next(*old(self), ev),
    {
        let next = match (&self.pending, ev) {
            (SyncAction::Clone, SyncEvent::Done(ok)) => if ok {
                SyncAction::Fetch
            } else {
                SyncAction::Finish(false)
            },
            (SyncAction::Fetch, SyncEvent::Done(ok)) => if ok {
                SyncAction::ReadRemoteUrl
            } else {
                SyncAction::Finish(false)
            },
            (SyncAction::ReadRemoteUrl, SyncEvent::RemoteUrl(u)) => match u {
                Some(url) => if url == self.url {
                    SyncAction::Checkout(self.branch.clone())
                } else {
                    SyncAction::SetRemoteUrl(self.url.clone())
                },
                None => SyncAction::SetRemoteUrl(self.url.clone()),
            },
            (SyncAction::SetRemoteUrl(_), SyncEvent::Done(ok)) => if ok {
                SyncAction::Checkout(self.branch.clone())
            } else {
                SyncAction::Finish(false)
            },
            (SyncAction::Checkout(_), SyncEvent::Done(ok)) => if ok {
                SyncAction::FastForward(self.branch.clone())
            } else {
                SyncAction::Finish(false)
            },
            (SyncAction::FastForward(_), SyncEvent::Done(ok)) => if ok {
                SyncAction::Finish(true)
            } else {
                SyncAction::HardReset(self.branch.clone())
            },
            (SyncAction::HardReset(_), SyncEvent::Done(ok)) => SyncAction::Finish(ok),
            _ => SyncAction::Finish(false),
        };
        self.pending = next;
    }
}

/// A failed fast-forward followed by a successful hard reset still ends the
/// sync successfully, so the workflow goes on to run.
pub proof fn lemma_hard_reset_recovers(e: SyncEngine)
    requires
        e.pending is FastForward,
    ensures
        sync_next(sync_next(e, SyncEvent::Done(false)), SyncEvent::Done(true)).pending
            == SyncAction::Finish(true),
{
}

/// A failed fast-forward does not end the sync: the hard reset comes next.
pub proof fn lemma_fast_forward_failure_is_not_final(e: SyncEngine)
    requires
        e.pending is FastForward,
    ensures
        !sync_next(e, SyncEvent::Done(false)).is_finished(),
{
}

} // verus!
