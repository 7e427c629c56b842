//! The table of tracked repositories, keyed by name.
//!
//! The scheduler reads the whole table as a snapshot, works on the copy, and
//! writes it back; nothing else writes the table.

use vstd::prelude::*;
use crate::repo::Repo;

verus! {

/// No two entries share a key.
pub open spec fn keys_unique(entries: Seq<(String, Repo)>) -> bool {
    forall|i: int, j: int|
        0 <= i < j < entries.len() ==> (#[trigger] entries[i]).0@ != (#[trigger] entries[j]).0@
}

pub open spec fn has_key(entries: Seq<(String, Repo)>, key: Seq<char>) -> bool {
    exists|i: int| 0 <= i < entries.len() && (#[trigger] entries[i]).0@ == key
}

/// Some name in `names` is `key`.
pub open spec fn named_in(names: Seq<String>, key: Seq<char>) -> bool {
    exists|j: int| 0 <= j < names.len() && (#[trigger] names[j])@ == key
}

/// The keys of the entries whose key `names` does not hold, in order.
pub open spec fn stale_keys(entries: Seq<(String, Repo)>, names: Seq<String>) -> Seq<String> {
    entries.filter(|e: (String, Repo)| !named_in(names, e.0@)).map_values(|e: (String, Repo)| e.0)
}

/// The entries in order, keeping only the first entry under each key.
pub open spec fn first_per_key(entries: Seq<(String, Repo)>) -> Seq<(String, Repo)>
    decreases entries.len(),
{
    if entries.len() == 0 {
        entries
    } else {
        let kept = first_per_key(entries.drop_last());
        if has_key(kept, entries.last().0@) {
            kept
        } else {
            kept.push(entries.last())
        }
    }
}

/// The table as it is saved and restored.
pub struct SerializedState {
    pub repos: Vec<(String, Repo)>,
}

/// The saved form of the table, under its other name.
pub type SerializableState = SerializedState;

pub struct AppState {
    pub repos: Vec<(String, Repo)>,
    /// Seconds between two polls.
    pub scm_internal: u64,
}

fn copy_entries(entries: &Vec<(String, Repo)>) -> (r: Vec<(String, Repo)>)
    ensures
        r@ == entries@,
{
    let mut r: Vec<(String, Repo)> = Vec::new();
    let mut i: usize = 0;
    while i < entries.len()
        invariant
            i <= entries.len(),
            r@ == entries@.take(i as int),
        decreases entries.len() - i,
    {
        r.push((entries[i].0.clone(), entries[i].1.duplicate()));
        assert(entries@.take(i + 1) =~= entries@.take(i as int).push(entries@[i as int]));
        i = i + 1;
    }
    assert(entries@.take(entries@.len() as int) =~= entries@);
    r
}

fn position_of(entries: &Vec<(String, Repo)>, key: &String) -> (r: Option<usize>)
    ensures
        match r {
            Some(i) => i < entries@.len() && entries@[i as int].0@ == key@,
            None => !has_key(entries@, key@),
        },
{
    let mut i: usize = 0;
    while i < entries.len()
        invariant
            i <= entries.len(),
            forall|k: int| 0 <= k < i ==> (#[trigger] entries@[k]).0@ != key@,
        decreases entries.len() - i,
    {
        if entries[i].0 == *key {
            return Some(i);
        }
        i = i + 1;
    }
    None
}

impl AppState {
    pub open spec fn wf(&self) -> bool {
        keys_unique(self.repos@)
    }

    /// An empty table, polled every fifteen seconds.
    pub fn new() -> (r: AppState)
        ensures
            r.wf(),
            r.repos@.len() == 0,
            r.scm_internal == 15,
    {
        AppState { repos: Vec::new(), scm_internal: 15 }
    }

    /// Adds a repository under a key, unless the key is taken.
    pub fn add_repo_to_state(&mut self, repo_name: String, repo: Repo)
        requires
            old(self).wf(),
        ensures
            final(self).wf(),
            final(self).scm_internal == old(self).scm_internal,
            has_key(old(self).repos@, repo_name@) ==> final(self).repos@ == old(self).repos@,
            !has_key(old(self).repos@, repo_name@) ==> final(self).repos@ == old(self).repos@.push(
                (repo_name, repo),
            ),
    {
        match position_of(&self.repos, &repo_name) {
            Some(_) => {},
            None => {
                let ghost key = repo_name@;
                self.repos.push((repo_name, repo));
                assert forall|i: int, j: int| 0 <= i < j < self.repos@.len() implies (
                #[trigger] self.repos@[i]).0@ != (#[trigger] self.repos@[j]).0@ by {
                    if j == self.repos@.len() - 1 {
                        assert(self.repos@[i] == old(self).repos@[i]);
                    } else {
                        assert(self.repos@[i] == old(self).repos@[i]);
                        assert(self.repos@[j] == old(self).repos@[j]);
                    }
                }
            },
        }
    }

    /// The same as `add_repo_to_state`.
    pub fn add_repo(&mut self, repo_name: String, repo: Repo)
        requires
            old(self).wf(),
        ensures
            final(self).wf(),
            final(self).scm_internal == old(self).scm_internal,
            has_key(old(self).repos@, repo_name@) ==> final(self).repos@ == old(self).repos@,
            !has_key(old(self).repos@, repo_name@) ==> final(self).repos@ == old(self).repos@.push(
                (repo_name, repo),
            ),
    {
        self.add_repo_to_state(repo_name, repo)
    }

    /// A snapshot of the table.
    pub fn get_serialized_state(&self) -> (r: SerializedState)
        ensures
            r.repos@ == self.repos@,
    {
        SerializedState { repos: copy_entries(&self.repos) }
    }

    /// Replaces the table with a snapshot; of entries that share a key, only
    /// the first is kept.
    pub fn set_deserialize_state(&mut self, state: SerializedState)
        ensures
            final(self).wf(),
            final(self).scm_internal == old(self).scm_internal,
            final(self).repos@ == first_per_key(state.repos@),
            keys_unique(state.repos@) ==> final(self).repos@ == state.repos@,
            forall|k: Seq<char>| has_key(final(self).repos@, k) <==> has_key(state.repos@, k),
    {
        self.repos = Vec::new();
        let mut i: usize = 0;
        let src = state.repos;
        while i < src.len()
            invariant
                i <= src.len(),
                self.wf(),
                self.scm_internal == old(self).scm_internal,
                keys_unique(src@) ==> self.repos@ == src@.take(i as int),
                self.repos@ == first_per_key(src@.take(i as int)),
                forall|k: Seq<char>| has_key(self.repos@, k) <==> has_key(src@.take(i as int), k),
            decreases src.len() - i,
        {
            let ghost before = self.repos@;
            let key = src[i].0.clone();
            let repo = src[i].1.duplicate();
            proof {
                if keys_unique(src@) {
                    if has_key(src@.take(i as int), key@) {
                        let j = choose|j: int| 0 <= j < i && (#[trigger] src@.take(i as int)[j]).0@ == key@;
                        assert(src@[j].0@ == src@[i as int].0@);
                    }
                }
            }
            self.add_repo_to_state(key, repo);
            assert(src@.take(i + 1) =~= src@.take(i as int).push(src@[i as int]));
            assert(src@.take(i + 1).drop_last() =~= src@.take(i as int));
            assert forall|k: Seq<char>| has_key(self.repos@, k) <==> has_key(src@.take(i + 1), k) by {
                let kv = src@[i as int].0@;
                assert(has_key(before, k) == has_key(src@.take(i as int), k));
                assert(src@.take(i + 1)[i as int].0@ == kv);
                if has_key(src@.take(i as int), k) {
                    let j = choose|j: int| 0 <= j < i && (#[trigger] src@.take(i as int)[j]).0@ == k;
                    assert(src@.take(i + 1)[j].0@ == k);
                }
                if has_key(src@.take(i + 1), k) && k != kv {
                    let j = choose|j: int| 0 <= j < i + 1 && (#[trigger] src@.take(i + 1)[j]).0@ == k;
                    assert(src@.take(i as int)[j].0@ == k);
                }
                if has_key(before, k) {
                    let j = choose|j: int| 0 <= j < before.len() && (#[trigger] before[j]).0@ == k;
                    assert(self.repos@[j] == before[j]);
                }
                if has_key(self.repos@, k) && !has_key(before, k) {
                    let j = choose|j: int| 0 <= j < self.repos@.len() && (#[trigger] self.repos@[j]).0@ == k;
                    if j < before.len() {
                        assert(self.repos@[j] == before[j]);
                    }
                }
                if k == kv && !has_key(before, k) {
                    assert(self.repos@[before.len() as int].0@ == k);
                }
            }
            i = i + 1;
        }
        assert(src@.take(src@.len() as int) =~= src@);
    }

    /// The keys of the table that the registry no longer names, in table order.
    pub fn stale_repos(&self, names: &Vec<String>) -> (r: Vec<String>)
        ensures
            r@ == stale_keys(self.repos@, names@),
    {
        let mut r: Vec<String> = Vec::new();
        let mut i: usize = 0;
        while i < self.repos.len()
            invariant
                i <= self.repos.len(),
                r@ == stale_keys(self.repos@.take(i as int), names@),
            decreases self.repos.len() - i,
        {
            let mut j: usize = 0;
            let mut named = false;
            while j < names.len()
                invariant
                    j <= names.len(),
                    i < self.repos.len(),
                    named == exists|t: int| 0 <= t < j && (#[trigger] names@[t])@ == self.repos@[i as int].0@,
                decreases names.len() - j,
            {
                if names[j] == self.repos[i].0 {
                    named = true;
                }
                j = j + 1;
            }
            let ghost before = self.repos@.take(i as int);
            let ghost after = self.repos@.take(i + 1);
            proof {
                reveal(Seq::filter);
                assert(after.drop_last() =~= before);
                assert(after.last() == self.repos@[i as int]);
            }
            if !named {
                r.push(self.repos[i].0.clone());
            }
            proof {
                let keep = |e: (String, Repo)| !named_in(names@, e.0@);
                let key = |e: (String, Repo)| e.0;
                if !named {
                    assert(after.filter(keep) == before.filter(keep).push(self.repos@[i as int]));
                    assert(after.filter(keep).map_values(key) =~= before.filter(keep).map_values(
                        key,
                    ).push(self.repos@[i as int].0));
                } else {
                    assert(after.filter(keep) == before.filter(keep));
                }
            }
            i = i + 1;
        }
        assert(self.repos@.take(self.repos@.len() as int) =~= self.repos@);
        r
    }

    /// Removes the entry under a key, if there is one.
    pub fn remove_repo(&mut self, key: &String)
        requires
            old(self).wf(),
        ensures
            final(self).wf(),
            final(self).scm_internal == old(self).scm_internal,
            !has_key(final(self).repos@, key@),
            forall|k: Seq<char>| k != key@ ==> (has_key(final(self).repos@, k) <==> has_key(old(self).repos@, k)),
            !has_key(old(self).repos@, key@) ==> final(self).repos@ == old(self).repos@,
            has_key(old(self).repos@, key@) ==> exists|p: int|
                0 <= p < old(self).repos@.len() && (#[trigger] old(self).repos@[p]).0@ == key@
                    && final(self).repos@ == old(self).repos@.remove(p),
    {
        match position_of(&self.repos, key) {
            None => {},
            Some(p) => {
                let ghost before = self.repos@;
                self.repos.remove(p);
                assert forall|i: int, j: int| 0 <= i < j < self.repos@.len() implies (
                #[trigger] self.repos@[i]).0@ != (#[trigger] self.repos@[j]).0@ by {
                    let oi = if i < p { i } else { i + 1 };
                    let oj = if j < p { j } else { j + 1 };
                    assert(self.repos@[i] == before[oi]);
                    assert(self.repos@[j] == before[oj]);
                }
                assert forall|k: Seq<char>| k != key@ implies (has_key(self.repos@, k) <==> has_key(before, k)) by {
                    if has_key(before, k) {
                        let j = choose|j: int| 0 <= j < before.len() && (#[trigger] before[j]).0@ == k;
                        if j < p {
                            assert(self.repos@[j] == before[j]);
                        } else {
                            assert(j != p);
                            assert(self.repos@[j - 1] == before[j]);
                        }
                    }
                    if has_key(self.repos@, k) {
                        let j = choose|j: int| 0 <= j < self.repos@.len() && (#[trigger] self.repos@[j]).0@ == k;
                        if j < p {
                            assert(self.repos@[j] == before[j]);
                        } else {
                            assert(self.repos@[j] == before[j + 1]);
                        }
                    }
                }
                proof {
                    if has_key(self.repos@, key@) {
                        let j = choose|j: int| 0 <= j < self.repos@.len() && (#[trigger] self.repos@[j]).0@ == key@;
                        if j < p {
                            assert(self.repos@[j] == before[j]);
                        } else {
                            assert(self.repos@[j] == before[j + 1]);
                        }
                    }
                }
            },
        }
    }
}

} // verus!
