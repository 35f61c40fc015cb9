//! References to tasks, and the places that hold them.
use crate::hashing::{hash_by, hash_usize};
use std::collections::BTreeMap;
use std::hash::{Hash, Hasher};
use vstd::laws_cmp::obeys_cmp;
use vstd::prelude::*;
use vstd::std_specs::btree::increasing_seq;
use vstd::std_specs::cmp::OrdSpec;
use vstd::std_specs::iter::IteratorSpec;

verus! {

/// A reference to a task of a `TaskSystem`, which can be copied freely.
///
/// It is a plain name of the task, and does not keep the task from being released.
/// That is what a `SharedTaskRef` does.
///
/// Two references are equal if they refer to the same task.
#[derive(Copy, Clone, PartialEq, Eq, Structural)]
pub struct TaskRef {
    slot: usize,
}

impl TaskRef {
    /// The position of the task among the tasks of its system.
    pub closed spec fn index(self) -> int {
        self.slot as int
    }

    /// Refers to the task at the given position.
    pub(crate) fn at(slot: usize) -> (taskref: TaskRef)
        ensures
            taskref.index() == slot,
    {
        TaskRef { slot }
    }

    /// Returns the position of the task among the tasks of its system.
    pub(crate) fn slot(&self) -> (slot: usize)
        ensures
            slot == self.index(),
    {
        self.slot
    }
}

/// References are equal exactly if they refer to the same task, i.e. if they have the same position.
/// The position is all that is hashed of a reference.
pub proof fn law_equal_references_name_one_task(a: TaskRef, b: TaskRef)
    ensures
        a == b <==> a.index() == b.index(),
{
}

/// Equality of references is reflexive, symmetric and transitive.
pub proof fn law_equality_is_an_equivalence(a: TaskRef, b: TaskRef, c: TaskRef)
    ensures
        a == a,
        a == b ==> b == a,
        a == b && b == c ==> a == c,
{
}

impl Hash for TaskRef {
    /// Gives the position of the task to the hasher, and nothing else.
    fn hash<H: Hasher>(&self, state: &mut H)
        ensures
            exists|i: usize, s: &mut H| #[trigger]
                call_ensures(hash_usize::<H>, (&i, s), ()) && i == self.index()
                    && *s == *old(state) && *final(s) == *final(state),
    {
        hash_by(hash_usize::<H>, &self.slot, state);
    }
}

/// A reference to a task which allows another task to wait for its end, i.e. to join it, and
/// to obtain its exit value.
///
/// There is one such reference per task: it is created with the task, and cannot be cloned.
/// The task is joinable until `drop` consumes the reference. From then on the task is an orphan:
/// there is no way to wait for it to complete.
///
/// The task is a part of its system, which a value that merely goes out of scope cannot reach.
/// So the end of the scope alone does not make the task an orphan: whoever is done with
/// the reference hands it to `drop`.
#[must_use]
pub struct JoinableTaskRef {
    task: TaskRef,
}

impl JoinableTaskRef {
    /// The task that can be joined.
    pub closed spec fn task(self) -> TaskRef {
        self.task
    }

    /// Wraps a reference to a new task.
    pub(crate) fn wrap(task: TaskRef) -> (joinable: JoinableTaskRef)
        ensures
            joinable.task() == task,
    {
        JoinableTaskRef { task }
    }
}

impl std::ops::Deref for JoinableTaskRef {
    type Target = TaskRef;

    fn deref(&self) -> (task: &TaskRef)
        ensures
            *task == self.task(),
    {
        &self.task
    }
}

/// A counted reference to a task: the task is not released as long as it has one.
///
/// It is created by `TaskSystem::share`, and ends when `drop` consumes it.
/// A value that merely goes out of scope keeps its task forever.
#[must_use]
pub struct SharedTaskRef {
    task: TaskRef,
}

impl SharedTaskRef {
    /// The task that is kept.
    pub closed spec fn task(self) -> TaskRef {
        self.task
    }

    /// Wraps a reference that was counted.
    pub(crate) fn wrap(task: TaskRef) -> (shared: SharedTaskRef)
        ensures
            shared.task() == task,
    {
        SharedTaskRef { task }
    }
}

impl std::ops::Deref for SharedTaskRef {
    type Target = TaskRef;

    fn deref(&self) -> (task: &TaskRef)
        ensures
            *task == self.task(),
    {
        &self.task
    }
}

/// The information local to one task. A pointer to it is kept in a register of the core that
/// runs the task, so that the core can quickly tell its current task.
#[derive(Copy, Clone)]
pub struct TaskLocalData {
    pub taskref: TaskRef,
    pub task_id: usize,
}

/// The variables in a thread-local storage (TLS) area that say which task is the current one.
#[derive(Copy, Clone)]
pub struct TlsVariables {
    /// The ID of the current task.
    pub current_task_id: usize,
    /// The current task, once it has been initialized.
    pub current_task: Option<TaskRef>,
    /// How many times the current task is borrowed. While it is, it can not be changed.
    pub borrows: usize,
}

impl TlsVariables {
    /// The variables as the TLS data image initializes them.
    pub open spec fn initial() -> TlsVariables {
        TlsVariables { current_task_id: 0, current_task: None, borrows: 0 }
    }

    /// Returns the variables as the TLS data image initializes them.
    pub fn new() -> (vars: TlsVariables)
        ensures
            vars == TlsVariables::initial(),
    {
        TlsVariables { current_task_id: 0, current_task: None, borrows: 0 }
    }
}

/// References to numbers are ordered as the numbers are.
proof fn lemma_reference_order()
    ensures
        obeys_cmp::<&usize>(),
{
    broadcast use vstd::laws_eq::group_laws_eq;

    reveal(vstd::laws_eq::obeys_eq_spec_properties);
    reveal(vstd::laws_cmp::obeys_partial_cmp_spec_properties);
    reveal(vstd::laws_cmp::obeys_cmp_partial_ord);
    reveal(vstd::laws_cmp::obeys_cmp_ord);
}

/// What it means that a sequence is increasing.
proof fn lemma_increasing<K: Ord>(s: Seq<K>, i: int, j: int)
    requires
        obeys_cmp::<K>(),
        increasing_seq(s),
        0 <= i < j < s.len(),
    ensures
        s[i].cmp_spec(&s[j]) is Less,
{
}

/// The list of tasks by their IDs.
pub struct TaskList {
    tasks: BTreeMap<usize, TaskRef>,
}

impl View for TaskList {
    type V = Map<usize, TaskRef>;

    closed spec fn view(&self) -> Map<usize, TaskRef> {
        self.tasks@
    }
}

/// What a list holds under an ID.
pub open spec fn listed(list: Map<usize, TaskRef>, task_id: usize) -> Option<TaskRef> {
    if list.contains_key(task_id) {
        Some(list[task_id])
    } else {
        None
    }
}

impl TaskList {
    /// Creates an empty list.
    pub fn new() -> (list: TaskList)
        ensures
            list@ == Map::<usize, TaskRef>::empty(),
    {
        TaskList { tasks: BTreeMap::new() }
    }

    /// Returns the task with the given ID.
    pub fn get(&self, task_id: usize) -> (task: Option<TaskRef>)
        ensures
            task == listed(self@, task_id),
    {
        match self.tasks.get(&task_id) {
            Some(task) => Some(*task),
            None => None,
        }
    }

    /// Returns the IDs of all tasks on the list, in ascending order.
    pub fn ids(&self) -> (ids: Vec<usize>)
        ensures
            forall|i: int, j: int| 0 <= i < j < ids@.len() ==> ids@[i] < ids@[j],
            forall|id: usize| ids@.contains(id) <==> self@.contains_key(id),
    {
        let mut ids: Vec<usize> = Vec::new();
        let ghost keys = self.tasks.keys().remaining().unref();
        for id in iter: self.tasks.keys()
            invariant
                iter.seq().unref() == keys,
                ids@ == keys.take(iter.index()),
        {
            ids.push(*id);
        }
        proof {
            assert(ids@ =~= keys);
            assert(keys.to_set() == self@.dom());
            lemma_reference_order();
            let entries = self.tasks.keys().remaining();
            assert(increasing_seq(entries));
            assert forall|i: int, j: int| 0 <= i < j < ids@.len() implies ids@[i] < ids@[j] by {
                lemma_increasing(entries, i, j);
            }
            assert forall|id: usize| ids@.contains(id) <==> self@.contains_key(id) by {
                assert(keys.to_set().contains(id) <==> self@.dom().contains(id));
            }
        }
        ids
    }

    /// Puts a task under the given ID, and returns the task that was there before.
    pub fn insert(&mut self, task_id: usize, task: TaskRef) -> (replaced: Option<TaskRef>)
        ensures
            final(self)@ == old(self)@.insert(task_id, task),
            replaced == listed(old(self)@, task_id),
    {
        self.tasks.insert(task_id, task)
    }

    /// Removes the task with the given ID, and returns it.
    pub fn remove(&mut self, task_id: usize) -> (removed: Option<TaskRef>)
        ensures
            final(self)@ == old(self)@.remove(task_id),
            removed == listed(old(self)@, task_id),
    {
        self.tasks.remove(&task_id)
    }
}

} // verus!
