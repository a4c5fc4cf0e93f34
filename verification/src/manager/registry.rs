//! The registry of jobs: which job of the host is which job of the worker.
//!
//! The registry is a map from task identifiers to the worker's job
//! identifiers. The question which task owns a job identifier is answered
//! by a walk through the map; where several tasks own it, the walk finds
//! one of them.

use crate::text::{same_text, text_of};
use std::collections::HashMap;
use vstd::prelude::*;

verus! {

/// The host's identifier of a job.
#[derive(Debug, Clone, Copy, PartialEq, Eq, Hash, Structural)]
pub struct TaskId(pub u128);

/// What a registry holds: the worker's job identifier for the number of
/// each task that is entered.
pub type Entries = Map<u128, Seq<char>>;

/// The worker's identifier of the job of task `id`.
pub open spec fn gid_of(entries: Entries, id: TaskId) -> Option<Seq<char>> {
    if entries.contains_key(id.0) {
        Some(entries[id.0])
    } else {
        None
    }
}

/// The registry after `id` has been entered with `gid`: a task that is
/// entered again gets the new identifier.
pub open spec fn entered(entries: Entries, id: TaskId, gid: Seq<char>) -> Entries {
    entries.insert(id.0, gid)
}

/// The registry after `id` has been struck out.
pub open spec fn struck(entries: Entries, id: TaskId) -> Entries {
    entries.remove(id.0)
}

/// Whether task `id` is entered with the job that the worker knows as
/// `gid`.
pub open spec fn owns(entries: Entries, id: TaskId, gid: Seq<char>) -> bool {
    gid_of(entries, id) == Some(gid)
}

/// Whether a task is entered with the job that the worker knows as `gid`.
pub open spec fn has_owner(entries: Entries, gid: Seq<char>) -> bool {
    exists|id: TaskId| owns(entries, id, gid)
}

/// The registry behaves as a map: a task that was entered is found with
/// what it was entered with; a task that was struck out is not found;
/// neither touches what is known of any other task; and an empty registry
/// knows no task.
pub proof fn lemma_registry_is_a_map(entries: Entries, id: TaskId, gid: Seq<char>, other: TaskId)
    ensures
        gid_of(entered(entries, id, gid), id) == Some(gid),
        gid_of(struck(entries, id), id) is None,
        other != id ==> gid_of(entered(entries, id, gid), other) == gid_of(entries, other),
        other != id ==> gid_of(struck(entries, id), other) == gid_of(entries, other),
        gid_of(Map::<u128, Seq<char>>::empty(), id) is None,
        owns(entered(entries, id, gid), id, gid),
        has_owner(entered(entries, id, gid), gid),
        !has_owner(Map::<u128, Seq<char>>::empty(), gid),
{
    assert(owns(entered(entries, id, gid), id, gid));
}

/// The texts of the values of a map.
pub open spec fn texts(entries: Map<u128, String>) -> Entries {
    entries.map_values(|gid: String| gid@)
}

/// The registry of jobs.
#[derive(Debug, PartialEq, Eq)]
pub struct TaskRegistry {
    entries: HashMap<u128, String>,
}

impl View for TaskRegistry {
    type V = Entries;

    closed spec fn view(&self) -> Entries {
        texts(self.entries@)
    }
}

impl TaskRegistry {
    /// An empty registry.
    pub fn new() -> (registry: Self)
        ensures
            registry@ == Map::<u128, Seq<char>>::empty(),
    {
        let registry = TaskRegistry { entries: HashMap::new() };
        assert(registry@ =~= Map::<u128, Seq<char>>::empty());
        registry
    }

    /// How many tasks are entered.
    pub fn len(&self) -> (count: usize)
        ensures
            count == self@.len(),
    {
        broadcast use vstd::std_specs::hash::group_hash_axioms;

        assert(self@.dom() =~= self.entries@.dom());
        self.entries.len()
    }

    /// The worker's identifier of the job of task `id`.
    pub fn get(&self, id: TaskId) -> (gid: Option<String>)
        ensures
            text_of(gid) == gid_of(self@, id),
    {
        broadcast use vstd::std_specs::hash::group_hash_axioms;

        match self.entries.get(&id.0) {
            Some(gid) => Some(gid.clone()),
            None => None,
        }
    }

    /// Enters task `id` with the worker's identifier of its job.
    pub fn insert(&mut self, id: TaskId, gid: String)
        ensures
            final(self)@ == entered(old(self)@, id, gid@),
    {
        broadcast use vstd::std_specs::hash::group_hash_axioms;

        self.entries.insert(id.0, gid);
        assert(self@ =~= entered(old(self)@, id, gid@));
    }

    /// Strikes task `id` out and hands out the worker's identifier of its
    /// job, where it was entered.
    pub fn remove(&mut self, id: TaskId) -> (gid: Option<String>)
        ensures
            text_of(gid) == gid_of(old(self)@, id),
            final(self)@ == struck(old(self)@, id),
    {
        broadcast use vstd::std_specs::hash::group_hash_axioms;

        let gid = self.entries.remove(&id.0);
        assert(self@ =~= struck(old(self)@, id));
        gid
    }

    /// A task that is entered with the job that the worker knows as `gid`.
    /// Where several are, which of them is found depends on the order in
    /// which the map is walked.
    pub fn owner(&self, gid: &str) -> (owner: Option<TaskId>)
        ensures
            match owner {
                Some(id) => owns(self@, id, gid@),
                None => !has_owner(self@, gid@),
            },
    {
        broadcast use vstd::std_specs::hash::group_hash_axioms;

        for entry in walk: self.entries.iter()
            invariant
                forall|i: int| 0 <= i < walk.index() ==> (#[trigger] walk.seq()[i]).1@ != gid@,
        {
            if same_text(entry.1.as_str(), gid) {
                return Some(TaskId(*entry.0));
            }
        }
        assert forall|id: TaskId| !owns(self@, id, gid@) by {
            if self.entries@.contains_key(id.0) {
                assert(self.entries@[id.0]@ != gid@);
            }
        }
        None
    }
}

} // verus!
