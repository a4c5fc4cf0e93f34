//! What the host remembers of each job: which job of the worker a task is,
//! and the task as it was last seen, under the worker's identifier.
//!
//! Both are maps. They are filled together, but each is kept for itself: a
//! task that is entered again under another identifier leaves what was
//! remembered under the old one in place.

use crate::manager::registry::{entered, gid_of, struck, Entries, TaskId, TaskRegistry};
use crate::manager::{DownloadTask, DownloadTaskView};
use crate::text::{same_text, text_of};
use vstd::prelude::*;

verus! {

/// A task as it was last seen, with the worker's identifier of its job.
#[derive(Debug, PartialEq, Eq)]
pub struct TaskState {
    /// The task.
    pub task: DownloadTask,
    /// The worker's identifier of its job.
    pub aria2_gid: String,
}

/// A [`TaskState`] with its texts as sequences of characters.
pub struct TaskStateView {
    pub task: DownloadTaskView,
    pub aria2_gid: Seq<char>,
}

impl View for TaskState {
    type V = TaskStateView;

    open spec fn view(&self) -> TaskStateView {
        TaskStateView { task: self.task@, aria2_gid: self.aria2_gid@ }
    }
}

impl Clone for TaskState {
    fn clone(&self) -> (copy: Self)
        ensures
            copy@ == self@,
    {
        TaskState { task: self.task.clone(), aria2_gid: self.aria2_gid.clone() }
    }
}

/// The views of a list of task states.
pub open spec fn state_views(states: Seq<TaskState>) -> Seq<TaskStateView> {
    states.map_values(|state: TaskState| state@)
}

/// Where the state remembered under `gid` stands in `states`, if one is.
pub open spec fn state_position(states: Seq<TaskStateView>, gid: Seq<char>) -> Option<int>
    decreases states.len(),
{
    if states.len() == 0 {
        None
    } else if states.last().aria2_gid == gid {
        Some(states.len() - 1)
    } else {
        state_position(states.drop_last(), gid)
    }
}

/// The state remembered under `gid`.
pub open spec fn state_of(states: Seq<TaskStateView>, gid: Seq<char>) -> Option<TaskStateView> {
    match state_position(states, gid) {
        Some(i) => Some(states[i]),
        None => None,
    }
}

/// The states after `state` has been remembered under its identifier: what
/// was remembered under it before is replaced.
pub open spec fn remembered(states: Seq<TaskStateView>, state: TaskStateView) -> Seq<
    TaskStateView,
> {
    match state_position(states, state.aria2_gid) {
        Some(i) => states.update(i, state),
        None => states.push(state),
    }
}

/// The states after the task remembered under `gid`, if one is, has been
/// replaced by `task`.
pub open spec fn refreshed(states: Seq<TaskStateView>, gid: Seq<char>, task: DownloadTaskView) -> Seq<
    TaskStateView,
> {
    match state_position(states, gid) {
        Some(i) => states.update(i, TaskStateView { task, aria2_gid: states[i].aria2_gid }),
        None => states,
    }
}

/// The states after what was remembered under `gid` has been forgotten.
pub open spec fn forgotten(states: Seq<TaskStateView>, gid: Seq<char>) -> Seq<TaskStateView> {
    match state_position(states, gid) {
        Some(i) => states.remove(i),
        None => states,
    }
}

/// A position that is found holds a state under the identifier that was
/// looked for.
pub proof fn lemma_state_position(states: Seq<TaskStateView>, gid: Seq<char>)
    ensures
        match state_position(states, gid) {
            Some(i) => 0 <= i < states.len() && states[i].aria2_gid == gid && forall|j: int|
                i < j < states.len() ==> (#[trigger] states[j]).aria2_gid != gid,
            None => forall|j: int|
                0 <= j < states.len() ==> (#[trigger] states[j]).aria2_gid != gid,
        },
    decreases states.len(),
{
    if states.len() > 0 && states.last().aria2_gid != gid {
        lemma_state_position(states.drop_last(), gid);
        assert forall|j: int| 0 <= j < states.len() - 1 implies states[j]
            == states.drop_last()[j] by {}
    }
}

/// What the state manager remembers.
pub struct StateManagerView {
    /// The worker's identifier for each task.
    pub gids: Entries,
    /// The task states, each under the worker's identifier.
    pub states: Seq<TaskStateView>,
}

impl StateManagerView {
    /// What is remembered once `task` has been entered as the worker's job
    /// `gid`.
    pub open spec fn added(self, task: DownloadTaskView, gid: Seq<char>) -> Self {
        StateManagerView {
            gids: entered(self.gids, task.id, gid),
            states: remembered(self.states, TaskStateView { task, aria2_gid: gid }),
        }
    }

    /// What is remembered once task `id` has been removed: the task is
    /// struck out, and with it the state under its identifier. Of a task
    /// that was not entered nothing is forgotten.
    pub open spec fn removed(self, id: TaskId) -> Self {
        match gid_of(self.gids, id) {
            Some(gid) => StateManagerView {
                gids: struck(self.gids, id),
                states: forgotten(self.states, gid),
            },
            None => self,
        }
    }
}

/// The memory of the host's jobs.
#[derive(Debug, PartialEq, Eq)]
pub struct StateManager {
    task_to_gid: TaskRegistry,
    gid_to_state: Vec<TaskState>,
}

impl View for StateManager {
    type V = StateManagerView;

    closed spec fn view(&self) -> StateManagerView {
        StateManagerView { gids: self.task_to_gid@, states: state_views(self.gid_to_state@) }
    }
}

impl StateManager {
    /// A state manager that remembers nothing.
    pub fn new() -> (manager: Self)
        ensures
            manager@ == (StateManagerView { gids: Map::empty(), states: Seq::empty() }),
    {
        let manager = StateManager { task_to_gid: TaskRegistry::new(), gid_to_state: Vec::new() };
        assert(state_views(manager.gid_to_state@) =~= Seq::<TaskStateView>::empty());
        manager
    }

    fn find(&self, gid: &str) -> (place: Option<usize>)
        ensures
            match place {
                Some(i) => state_position(self@.states, gid@) == Some(i as int) && i
                    < self@.states.len(),
                None => state_position(self@.states, gid@) is None,
            },
    {
        let mut i: usize = self.gid_to_state.len();
        assert(self@.states.take(i as int) =~= self@.states);
        while i > 0
            invariant
                i <= self.gid_to_state.len(),
                self@.states == state_views(self.gid_to_state@),
                state_position(self@.states, gid@) == state_position(
                    self@.states.take(i as int),
                    gid@,
                ),
            decreases i,
        {
            let ghost seen = self@.states.take(i as int);
            assert(seen.drop_last() =~= self@.states.take(i - 1));
            assert(seen.last() == self@.states[i - 1]);
            if same_text(self.gid_to_state[i - 1].aria2_gid.as_str(), gid) {
                return Some(i - 1);
            }
            i -= 1;
        }
        None
    }

    /// Remembers `task` as the worker's job `gid`.
    pub fn add_task(&mut self, task: DownloadTask, gid: String)
        ensures
            final(self)@ == old(self)@.added(task@, gid@),
    {
        self.task_to_gid.insert(task.id, gid.clone());
        let state = TaskState { task, aria2_gid: gid };
        match self.find(state.aria2_gid.as_str()) {
            Some(i) => {
                self.gid_to_state.set(i, state);
                assert(state_views(self.gid_to_state@) =~= remembered(old(self)@.states, state@));
            },
            None => {
                self.gid_to_state.push(state);
                assert(state_views(self.gid_to_state@) =~= remembered(old(self)@.states, state@));
            },
        }
    }

    /// The worker's identifier of the job of task `id`.
    pub fn get_gid(&self, id: TaskId) -> (gid: Option<String>)
        ensures
            text_of(gid) == gid_of(self@.gids, id),
    {
        self.task_to_gid.get(id)
    }

    /// The state remembered under `gid`.
    pub fn get_state(&self, gid: &str) -> (state: Option<TaskState>)
        ensures
            match state_of(self@.states, gid@) {
                Some(expected) => state matches Some(found) && found@ == expected,
                None => state is None,
            },
    {
        match self.find(gid) {
            Some(i) => Some(self.gid_to_state[i].clone()),
            None => None,
        }
    }

    /// Replaces the task remembered under `gid`, where one is.
    pub fn update_task(&mut self, gid: &str, task: DownloadTask)
        ensures
            final(self)@ == (StateManagerView {
                states: refreshed(old(self)@.states, gid@, task@),
                ..old(self)@
            }),
    {
        match self.find(gid) {
            Some(i) => {
                let aria2_gid = self.gid_to_state[i].aria2_gid.clone();
                self.gid_to_state.set(i, TaskState { task, aria2_gid });
                assert(state_views(self.gid_to_state@) =~= refreshed(
                    old(self)@.states,
                    gid@,
                    task@,
                ));
            },
            None => {},
        }
    }

    /// Forgets task `id` and hands out the worker's identifier of its job,
    /// where the task was entered.
    pub fn remove_task(&mut self, id: TaskId) -> (gid: Option<String>)
        ensures
            text_of(gid) == gid_of(old(self)@.gids, id),
            final(self)@ == old(self)@.removed(id),
    {
        match self.task_to_gid.remove(id) {
            Some(gid) => {
                match self.find(gid.as_str()) {
                    Some(i) => {
                        self.gid_to_state.remove(i);
                        assert(state_views(self.gid_to_state@) =~= forgotten(
                            old(self)@.states,
                            gid@,
                        ));
                    },
                    None => {},
                }
                Some(gid)
            },
            None => {
                assert(self@.gids =~= old(self)@.gids);
                None
            },
        }
    }

    /// Every state that is remembered, in the order in which the
    /// identifiers were first used.
    pub fn list_all_states(&self) -> (states: Vec<TaskState>)
        ensures
            state_views(states@) == self@.states,
    {
        let mut states: Vec<TaskState> = Vec::new();
        let mut i: usize = 0;
        while i < self.gid_to_state.len()
            invariant
                i <= self.gid_to_state.len(),
                self@.states == state_views(self.gid_to_state@),
                state_views(states@) == self@.states.take(i as int),
            decreases self.gid_to_state.len() - i,
        {
            let ghost before = state_views(states@);
            let copy = self.gid_to_state[i].clone();
            assert(copy@ == self@.states[i as int]);
            states.push(copy);
            assert(state_views(states@) =~= before.push(copy@));
            assert(state_views(states@) =~= self@.states.take(i + 1));
            i += 1;
        }
        assert(self@.states.take(self@.states.len() as int) =~= self@.states);
        states
    }
}

/// What is added is found: after a task has been entered, its identifier
/// is the one it was entered with, and under that identifier the task is
/// remembered as it was entered.
pub proof fn lemma_added_task_is_found(
    pre: StateManagerView,
    task: DownloadTaskView,
    gid: Seq<char>,
)
    ensures
        gid_of(pre.added(task, gid).gids, task.id) == Some(gid),
        state_of(pre.added(task, gid).states, gid) == Some(
            TaskStateView { task, aria2_gid: gid },
        ),
{
    crate::manager::registry::lemma_registry_is_a_map(pre.gids, task.id, gid, task.id);
    lemma_state_position(pre.states, gid);
    lemma_state_position(pre.added(task, gid).states, gid);
    let after = pre.added(task, gid).states;
    let state = TaskStateView { task, aria2_gid: gid };
    match state_position(pre.states, gid) {
        Some(i) => {
            assert forall|j: int| i < j < after.len() implies (#[trigger] after[j]).aria2_gid
                != gid by {
                assert(after[j] == pre.states[j]);
            }
            lemma_state_found_last(after, gid, i);
        },
        None => {
            lemma_state_found_last(after, gid, pre.states.len() as int);
        },
    }
}

/// A state stands where it is seen, if no later state is remembered under
/// the same identifier.
pub proof fn lemma_state_found_last(states: Seq<TaskStateView>, gid: Seq<char>, i: int)
    requires
        0 <= i < states.len(),
        states[i].aria2_gid == gid,
        forall|j: int| i < j < states.len() ==> (#[trigger] states[j]).aria2_gid != gid,
    ensures
        state_position(states, gid) == Some(i),
    decreases states.len(),
{
    if states.last().aria2_gid != gid {
        let before = states.drop_last();
        assert forall|j: int| i < j < before.len() implies (#[trigger] before[j]).aria2_gid
            != gid by {
            assert(before[j] == states[j]);
        }
        lemma_state_found_last(before, gid, i);
    }
}

} // verus!
