//! The tasks of a system, and the notion of the current task of a core.
use crate::address::{has_virtual_form, sign_extended, virtual_address};
use crate::exit::ExitValue;
use crate::task::{Platform, Task, TaskView};
use crate::task_ref::{
    law_equal_references_name_one_task, listed, JoinableTaskRef, SharedTaskRef, TaskList,
    TaskLocalData, TaskRef, TlsVariables,
};
use vstd::prelude::*;

verus! {

/// A task, with the variables in its TLS area and the number of counted references to it.
struct Slot<P: Platform> {
    task: Task<P>,
    tls: TlsVariables,
    references: usize,
}

/// All tasks of a system, and the list of those that are found by their IDs.
///
/// A `TaskRef` refers to a task of one system. It does so until the task is released,
/// which is possible once nothing refers to the task any more.
pub struct TaskSystem<P: Platform> {
    /// The tasks that references were handed out for, each at the position of its reference.
    /// The position of a released task stays empty.
    slots: Vec<Option<Box<Slot<P>>>>,
    /// The list of all tasks by their IDs.
    task_list: TaskList,
    /// The counter of task IDs.
    next_task_id: usize,
    /// The size of a kernel stack of the default size, in pages.
    kernel_stack_size_in_pages: usize,
}

/// What a `TaskSystem` holds.
#[verifier::ext_equal]
pub ghost struct SystemView<P: Platform> {
    /// The tasks by their positions.
    pub tasks: Map<int, TaskView<P>>,
    /// The variables in the TLS areas of the tasks.
    pub tls: Map<int, TlsVariables>,
    /// The numbers of counted references to the tasks.
    pub references: Map<int, usize>,
    /// The number of positions that were given to tasks, which is the position of the next task.
    pub slots: nat,
    pub task_list: Map<usize, TaskRef>,
    pub next_task_id: usize,
    pub kernel_stack_size_in_pages: usize,
}

/// The registers of one core that say which task is the current one.
pub struct Cpu {
    /// The task whose TLS area is the active one.
    /// It is `None` until the core has its first task: up to then another area is active.
    fs_task: Option<TaskRef>,
    /// The register that points to the active TLS area.
    fs_base: u64,
    /// The data that the register points to which tells the current task.
    gs_base: Option<TaskLocalData>,
    /// The variables in the TLS area that is active until the core has its first task.
    boot_tls: TlsVariables,
}

/// What a `Cpu` holds.
pub ghost struct CpuView {
    pub fs_task: Option<TaskRef>,
    pub fs_base: u64,
    pub gs_base: Option<TaskLocalData>,
    pub boot_tls: TlsVariables,
}

impl<P: Platform> TaskSystem<P> {
    /// There is a task at the position `i`.
    spec fn occupied(&self, i: int) -> bool {
        0 <= i < self.slots@.len() && self.slots@[i] is Some
    }
}

impl<P: Platform> View for TaskSystem<P> {
    type V = SystemView<P>;

    closed spec fn view(&self) -> SystemView<P> {
        SystemView {
            tasks: Map::new(|i: int| self.occupied(i), |i: int| self.slots@[i]->0.task@),
            tls: Map::new(|i: int| self.occupied(i), |i: int| self.slots@[i]->0.tls),
            references: Map::new(
                |i: int| self.occupied(i),
                |i: int| self.slots@[i]->0.references,
            ),
            slots: self.slots@.len(),
            task_list: self.task_list@,
            next_task_id: self.next_task_id,
            kernel_stack_size_in_pages: self.kernel_stack_size_in_pages,
        }
    }
}

impl View for Cpu {
    type V = CpuView;

    closed spec fn view(&self) -> CpuView {
        CpuView {
            fs_task: self.fs_task,
            fs_base: self.fs_base,
            gs_base: self.gs_base,
            boot_tls: self.boot_tls,
        }
    }
}

impl CpuView {
    /// The current task, as the register tells it that points to the data of the task.
    pub open spec fn current(self) -> Option<TaskRef> {
        match self.gs_base {
            Some(data) => Some(data.taskref),
            None => None,
        }
    }

    /// The core refers to the task: it uses its TLS area, or tells it as the current task.
    pub open spec fn refers_to(self, r: TaskRef) -> bool {
        ||| self.fs_task == Some(r)
        ||| self.current() == Some(r)
        ||| self.boot_tls.current_task == Some(r)
    }

    /// The core with other variables in its active TLS area.
    pub open spec fn with_active_tls(self, vars: TlsVariables) -> CpuView {
        match self.fs_task {
            Some(_) => self,
            None => CpuView { boot_tls: vars, ..self },
        }
    }
}

impl<P: Platform> SystemView<P> {
    /// The reference refers to a task of this system.
    pub open spec fn has(self, r: TaskRef) -> bool {
        self.tasks.contains_key(r.index())
    }

    /// The task that a reference refers to.
    pub open spec fn task(self, r: TaskRef) -> TaskView<P> {
        self.tasks[r.index()]
    }

    /// The system with another state of one task.
    pub open spec fn with_task(self, r: TaskRef, task: TaskView<P>) -> SystemView<P> {
        SystemView { tasks: self.tasks.insert(r.index(), task), ..self }
    }

    /// The system with another number of counted references to one task.
    pub open spec fn with_references(self, r: TaskRef, references: usize) -> SystemView<P> {
        SystemView { references: self.references.insert(r.index(), references), ..self }
    }

    /// The system without one task and its TLS area.
    pub open spec fn without_task(self, r: TaskRef) -> SystemView<P> {
        SystemView {
            tasks: self.tasks.remove(r.index()),
            tls: self.tls.remove(r.index()),
            references: self.references.remove(r.index()),
            ..self
        }
    }

    /// The data tell a task of this system together with its ID.
    pub open spec fn data_wf(self, data: TaskLocalData) -> bool {
        self.has(data.taskref) && self.task(data.taskref).id == data.task_id
    }

    /// The variables tell no task, or a task of this system together with its ID.
    pub open spec fn tls_wf(self, vars: TlsVariables) -> bool {
        match vars.current_task {
            Some(r) => self.has(r) && self.task(r).id == vars.current_task_id,
            None => true,
        }
    }

    /// The task at the position `i` is in a valid state, and its local data refer back to it.
    pub open spec fn task_wf(self, i: int) -> bool {
        &&& 0 <= i < self.slots
        &&& self.tls.contains_key(i)
        &&& self.references.contains_key(i)
        &&& self.tasks[i].wf()
        &&& self.tasks[i].inner.task_local_data matches Some(data) ==> self.data_wf(data)
            && data.taskref.index() == i
        &&& self.tasks[i].inner.drop_after_task_switch matches Some(data) ==> self.data_wf(data)
        &&& self.tls_wf(self.tls[i])
    }

    /// The system is in a valid state: so is every task, and the list has tasks of the system
    /// under their own IDs.
    pub open spec fn wf(self) -> bool {
        &&& forall|i: int| self.tasks.contains_key(i) ==> #[trigger] self.task_wf(i)
        &&& forall|id: usize| #[trigger]
            self.task_list.contains_key(id) ==> self.has(self.task_list[id])
                && self.task(self.task_list[id]).id == id
    }

    /// The registers of a core tell tasks of this system.
    pub open spec fn cpu_wf(self, cpu: CpuView) -> bool {
        &&& cpu.fs_task matches Some(r) ==> self.has(r)
        &&& cpu.gs_base matches Some(data) ==> self.data_wf(data)
        &&& self.tls_wf(cpu.boot_tls)
    }

    /// The task at the position `i` refers to the task `r`: its local data do so,
    /// or the data that it is to drop, or the variables in its TLS area.
    pub open spec fn task_refers_to(self, i: int, r: TaskRef) -> bool {
        ||| self.tasks[i].inner.task_local_data matches Some(data) && data.taskref == r
        ||| self.tasks[i].inner.drop_after_task_switch matches Some(data) && data.taskref == r
        ||| self.tls[i].current_task == Some(r)
    }

    /// Something of the system refers to the task: a task (it may be the same one),
    /// or the task list.
    pub open spec fn refers_to(self, r: TaskRef) -> bool {
        ||| exists|i: int| self.tasks.contains_key(i) && #[trigger] self.task_refers_to(i, r)
        ||| exists|id: usize| #[trigger] self.task_list.contains_key(id) && self.task_list[id] == r
    }

    /// The task can be released: nothing of the system refers to it, it has neither a counted nor
    /// a joinable reference any more, and the variables in its TLS area are not borrowed.
    pub open spec fn is_releasable(self, r: TaskRef) -> bool {
        &&& !self.refers_to(r)
        &&& self.references[r.index()] == 0
        &&& !self.task(r).joinable
        &&& self.tls[r.index()].borrows == 0
    }

    /// No task of the system can be released, given all cores of the machine.
    pub open spec fn has_none_to_release(self, cores: Seq<&Cpu>) -> bool {
        forall|r: TaskRef| #[trigger]
            self.has(r) ==> !(self.is_releasable(r) && none_refers_to(cores, r))
    }

    /// The task that `r` refers to is still there in `after`, in a state that an operation can
    /// lead to; or else it was released, which is possible only if nothing referred to it.
    pub open spec fn task_evolves_to(self, after: SystemView<P>, r: TaskRef) -> bool {
        if after.has(r) {
            self.task(r).evolves_to(after.task(r))
        } else {
            self.is_releasable(r)
        }
    }

    /// An operation can lead from this system to `after`. No reference that was handed out
    /// comes to refer to another task.
    pub open spec fn evolves_to(self, after: SystemView<P>) -> bool {
        &&& self.slots <= after.slots
        &&& forall|r: TaskRef| self.has(r) ==> #[trigger] self.task_evolves_to(after, r)
        &&& forall|r: TaskRef| r.index() < self.slots && #[trigger] after.has(r) ==> self.has(r)
    }

    /// The system is in a valid state again as `after`, which an operation can lead to, all its
    /// tasks are still there, and the registers of any core tell tasks of it if they did so before.
    pub open spec fn stays_valid_as(self, after: SystemView<P>) -> bool {
        &&& after.wf()
        &&& self.evolves_to(after)
        &&& forall|r: TaskRef| self.has(r) ==> #[trigger] after.has(r)
        &&& forall|cpu: CpuView| #[trigger] self.cpu_wf(cpu) ==> after.cpu_wf(cpu)
    }

    /// The variables in the TLS area that is active on a core.
    pub open spec fn active_tls(self, cpu: CpuView) -> TlsVariables {
        match cpu.fs_task {
            Some(r) => self.tls[r.index()],
            None => cpu.boot_tls,
        }
    }

    /// The system with other variables in the TLS area that is active on a core.
    pub open spec fn with_active_tls(self, cpu: CpuView, vars: TlsVariables) -> SystemView<P> {
        match cpu.fs_task {
            Some(r) => SystemView { tls: self.tls.insert(r.index(), vars), ..self },
            None => self,
        }
    }

    /// The system with the counter of task IDs advanced by one.
    pub open spec fn with_next_id(self) -> SystemView<P> {
        SystemView {
            next_task_id: if self.next_task_id == usize::MAX {
                0
            } else {
                (self.next_task_id + 1) as usize
            },
            ..self
        }
    }

    /// The system after an attempt to take the exit value of a task.
    pub open spec fn after_reap(self, r: TaskRef) -> SystemView<P> {
        SystemView {
            tasks: self.tasks.insert(r.index(), self.task(r).after_reap()),
            task_list: self.task(r).list_after_reap(self.task_list),
            ..self
        }
    }

    /// A core after it has made a task its current one. Where the task has no local data,
    /// the register that points to such data stays as it is.
    pub open spec fn cpu_running(self, cpu: CpuView, r: TaskRef) -> CpuView {
        CpuView {
            fs_task: Some(r),
            fs_base: sign_extended(self.task(r).tls_area.pointer_value as u64),
            gs_base: match self.task(r).inner.task_local_data {
                Some(data) => Some(data),
                None => cpu.gs_base,
            },
            ..cpu
        }
    }

    /// The system with a task on the list under its own ID.
    pub open spec fn with_listed(self, r: TaskRef) -> SystemView<P> {
        SystemView { task_list: self.task_list.insert(self.task(r).id, r), ..self }
    }
}

impl Cpu {
    /// A core that has no current task yet, with the address of its active TLS area.
    pub fn new(fs_base: u64) -> (cpu: Cpu)
        ensures
            cpu@ == (CpuView {
                fs_task: None,
                fs_base,
                gs_base: None,
                boot_tls: TlsVariables::initial(),
            }),
    {
        Cpu { fs_task: None, fs_base, gs_base: None, boot_tls: TlsVariables::new() }
    }

    /// Returns the address of the active TLS area, which the register holds that points to it.
    pub fn fs_base(&self) -> (addr: u64)
        ensures
            addr == self@.fs_base,
    {
        self.fs_base
    }

    /// Returns the task whose TLS area is the active one.
    pub(crate) fn active_area(&self) -> (area: Option<TaskRef>)
        ensures
            area == self@.fs_task,
    {
        self.fs_task
    }

    /// Returns whether the core refers to the task.
    fn refers_to(&self, r: &TaskRef) -> (refers: bool)
        ensures
            refers == self@.refers_to(*r),
    {
        tells(self.fs_task, r) || match &self.gs_base {
            Some(data) => data.taskref == *r,
            None => false,
        } || tells(self.boot_tls.current_task, r)
    }
}

/// None of the cores refers to the task.
pub open spec fn none_refers_to(cores: Seq<&Cpu>, r: TaskRef) -> bool {
    forall|k: int| 0 <= k < cores.len() ==> !(#[trigger] cores[k]@.refers_to(r))
}

/// Returns whether an optional reference is the given one.
fn tells(told: Option<TaskRef>, r: &TaskRef) -> (same: bool)
    ensures
        same == (told == Some(*r)),
{
    match told {
        Some(other) => other == *r,
        None => false,
    }
}

impl<P: Platform> TaskSystem<P> {
    /// Creates a system without tasks.
    pub fn new(kernel_stack_size_in_pages: usize) -> (system: Self)
        ensures
            system@ == (SystemView::<P> {
                tasks: Map::empty(),
                tls: Map::empty(),
                references: Map::empty(),
                slots: 0,
                task_list: Map::empty(),
                next_task_id: 0,
                kernel_stack_size_in_pages,
            }),
            system@.wf(),
    {
        TaskSystem {
            slots: Vec::new(),
            task_list: TaskList::new(),
            next_task_id: 0,
            kernel_stack_size_in_pages,
        }
    }

    /// Returns whether a reference refers to a task of this system that was not released.
    pub fn has(&self, r: &TaskRef) -> (has: bool)
        ensures
            has == self@.has(*r),
    {
        r.slot() < self.slots.len() && self.slots[r.slot()].is_some()
    }

    /// Returns the task that a reference refers to.
    pub fn task(&self, r: &TaskRef) -> (task: &Task<P>)
        requires
            self@.has(*r),
        ensures
            task@ == self@.task(*r),
    {
        &self.slots[r.slot()].as_ref().unwrap().task
    }

    /// Returns the list of all tasks by their IDs.
    pub fn task_list(&self) -> (list: &TaskList)
        ensures
            list@ == self@.task_list,
    {
        &self.task_list
    }

    /// Returns the task that a reference refers to, for a change.
    pub(crate) fn task_mut(&mut self, r: &TaskRef) -> (task: &mut Task<P>)
        requires
            old(self)@.has(*r),
        ensures
            task@ == old(self)@.task(*r),
            final(self)@ == old(self)@.with_task(*r, final(task)@),
    {
        &mut self.slots[r.slot()].as_mut().unwrap().task
    }

    /// Returns the number of pages of a kernel stack of the default size.
    pub(crate) fn kernel_stack_pages(&self) -> (pages: usize)
        ensures
            pages == self@.kernel_stack_size_in_pages,
    {
        self.kernel_stack_size_in_pages
    }

    /// Returns an ID for a new task. The counter starts again from zero after its largest value.
    pub(crate) fn take_task_id(&mut self) -> (id: usize)
        ensures
            id == old(self)@.next_task_id,
            final(self)@ == old(self)@.with_next_id(),
    {
        let id = self.next_task_id;
        self.next_task_id = id.wrapping_add(1);
        id
    }

    /// Adds a task to those of the system, with the variables in its TLS area,
    /// and returns its position.
    pub(crate) fn push(&mut self, task: Task<P>) -> (r: TaskRef)
        ensures
            r.index() == old(self)@.slots,
            final(self)@ == (SystemView {
                tasks: old(self)@.tasks.insert(r.index(), task@),
                tls: old(self)@.tls.insert(r.index(), TlsVariables::initial()),
                references: old(self)@.references.insert(r.index(), 0),
                slots: old(self)@.slots + 1,
                ..old(self)@
            }),
    {
        let r = TaskRef::at(self.slots.len());
        self.slots.push(Some(Box::new(Slot { task, tls: TlsVariables::new(), references: 0 })));
        r
    }

    /// Puts a task on the task list under its own ID,
    /// and returns the task that was on the list under this ID before.
    pub fn add_to_task_list(&mut self, r: &TaskRef) -> (replaced: Option<TaskRef>)
        requires
            old(self)@.wf(),
            old(self)@.has(*r),
        ensures
            replaced == listed(old(self)@.task_list, old(self)@.task(*r).id),
            final(self)@ == old(self)@.with_listed(*r),
            old(self)@.stays_valid_as(final(self)@),
    {
        let id = self.task(r).task_id();
        let replaced = self.task_list.insert(id, *r);
        proof {
            assert(self@ =~= old(self)@.with_listed(*r));
            lemma_same_tasks_wf(old(self)@, self@);
        }
        replaced
    }

    /// Removes a task from the task list if it has exited, and takes its exit value.
    pub(crate) fn reap(&mut self, r: &TaskRef) -> (value: Option<ExitValue<P::Payload>>)
        requires
            old(self)@.has(*r),
        ensures
            value == old(self)@.task(*r).reaped_value(),
            final(self)@ == old(self)@.after_reap(*r),
    {
        self.slots[r.slot()].as_mut().unwrap().task.take_exit_value(&mut self.task_list)
    }

    /// Returns a counted reference to a task.
    pub fn share(&mut self, r: &TaskRef) -> (shared: SharedTaskRef)
        requires
            old(self)@.wf(),
            old(self)@.has(*r),
            old(self)@.references[r.index()] < usize::MAX,
        ensures
            shared.task() == *r,
            final(self)@ == old(self)@.with_references(
                *r,
                (old(self)@.references[r.index()] + 1) as usize,
            ),
            old(self)@.stays_valid_as(final(self)@),
    {
        let references = self.references(r);
        self.set_references(r, references + 1);
        SharedTaskRef::wrap(*r)
    }

    /// Returns the number of counted references to a task.
    pub fn references(&self, r: &TaskRef) -> (references: usize)
        requires
            self@.has(*r),
        ensures
            references == self@.references[r.index()],
    {
        self.slots[r.slot()].as_ref().unwrap().references
    }

    /// Sets the number of counted references to a task.
    fn set_references(&mut self, r: &TaskRef, references: usize)
        requires
            old(self)@.wf(),
            old(self)@.has(*r),
        ensures
            final(self)@ == old(self)@.with_references(*r, references),
            old(self)@.stays_valid_as(final(self)@),
    {
        self.slots[r.slot()].as_mut().unwrap().references = references;
        proof {
            assert(self@ =~= old(self)@.with_references(*r, references));
            assert forall|i: int| self@.tasks.contains_key(i) implies #[trigger] self@.task_wf(
                i,
            ) by {
                assert(old(self)@.task_wf(i));
            }
        }
    }

    /// Takes a task out of the system, with its TLS area, if nothing refers to it any more: nothing
    /// of the system, no counted or joinable reference, and none of the given cores.
    /// Otherwise nothing is done.
    ///
    /// The task itself is dropped by the caller, which need not hold the system for that.
    ///
    /// The caller gives all cores of the machine. A `TaskRef` to the task is of no use afterwards:
    /// it never comes to refer to another task.
    pub fn release(&mut self, r: &TaskRef, cores: &Vec<&Cpu>) -> (released: Option<Task<P>>)
        requires
            old(self)@.wf(),
            old(self)@.has(*r),
        ensures
            released is Some <==> old(self)@.is_releasable(*r) && none_refers_to(cores@, *r),
            match released {
                Some(task) => {
                    &&& task@ == old(self)@.task(*r)
                    &&& final(self)@ == old(self)@.without_task(*r)
                },
                None => final(self)@ == old(self)@,
            },
            final(self)@.wf(),
            old(self)@.evolves_to(final(self)@),
            forall|cpu: CpuView|
                #![trigger final(self)@.cpu_wf(cpu)]
                old(self)@.cpu_wf(cpu) && !cpu.refers_to(*r) ==> final(self)@.cpu_wf(cpu),
    {
        if !self.can_be_released(r, cores) {
            return None;
        }
        let slot = self.slots[r.slot()].take().unwrap();
        proof {
            assert(self@ =~= old(self)@.without_task(*r));
            lemma_without_task_wf(old(self)@, *r);
        }
        Some(slot.task)
    }

    /// Returns a task that can be released, if there is one.
    /// The caller gives all cores of the machine.
    pub fn find_releasable(&self, cores: &Vec<&Cpu>) -> (found: Option<TaskRef>)
        requires
            self@.wf(),
        ensures
            match found {
                Some(r) => {
                    &&& self@.has(r)
                    &&& self@.is_releasable(r)
                    &&& none_refers_to(cores@, r)
                },
                None => self@.has_none_to_release(cores@),
            },
    {
        let mut i: usize = 0;
        while i < self.slots.len()
            invariant
                i <= self.slots.len(),
                self@.wf(),
                forall|r: TaskRef| #[trigger]
                    self@.has(r) && r.index() < i ==> !(self@.is_releasable(r) && none_refers_to(
                        cores@,
                        r,
                    )),
            decreases self.slots.len() - i,
        {
            let r = TaskRef::at(i);
            if self.has(&r) && self.can_be_released(&r, cores) {
                return Some(r);
            }
            proof {
                assert forall|s: TaskRef| #[trigger]
                    self@.has(s) && s.index() < i + 1 implies !(self@.is_releasable(s)
                    && none_refers_to(cores@, s)) by {
                    law_equal_references_name_one_task(r, s);
                }
            }
            i = i + 1;
        }
        proof {
            assert forall|r: TaskRef| #[trigger] self@.has(r) implies r.index() < i by {
                assert(self@.task_wf(r.index()));
            }
        }
        None
    }

    /// Returns whether a task can be released, and none of the given cores refers to it.
    fn can_be_released(&self, r: &TaskRef, cores: &Vec<&Cpu>) -> (can_be: bool)
        requires
            self@.wf(),
            self@.has(*r),
        ensures
            can_be == (self@.is_releasable(*r) && none_refers_to(cores@, *r)),
    {
        if self.references(r) != 0 || self.task(r).is_joinable() || self.borrows(r) != 0
            || self.is_referred_to(r) {
            return false;
        }
        let mut k: usize = 0;
        while k < cores.len()
            invariant
                k <= cores.len(),
                forall|m: int| 0 <= m < k ==> !(#[trigger] cores@[m]@.refers_to(*r)),
            decreases cores.len() - k,
        {
            if cores[k].refers_to(r) {
                return false;
            }
            k = k + 1;
        }
        true
    }

    /// Returns whether something of the system refers to the task.
    fn is_referred_to(&self, r: &TaskRef) -> (referred: bool)
        requires
            self@.wf(),
            self@.has(*r),
        ensures
            referred == self@.refers_to(*r),
    {
        let id = self.task(r).task_id();
        if tells(self.task_list.get(id), r) {
            return true;
        }
        let mut i: usize = 0;
        while i < self.slots.len()
            invariant
                i <= self.slots.len(),
                self@.wf(),
                forall|j: int|
                    0 <= j < i && self@.tasks.contains_key(j) ==> !(#[trigger]
                        self@.task_refers_to(j, *r)),
            decreases self.slots.len() - i,
        {
            if let Some(slot) = &self.slots[i] {
                if slot.task.refers_to(r) || tells(slot.tls.current_task, r) {
                    proof {
                        assert(self@.tasks.contains_key(i as int));
                        assert(self@.task_refers_to(i as int, *r));
                    }
                    return true;
                }
            }
            i = i + 1;
        }
        proof {
            assert forall|j: int| self@.tasks.contains_key(j) implies !(#[trigger]
                self@.task_refers_to(j, *r)) by {
                assert(self@.task_wf(j));
            }
        }
        false
    }

    /// Returns how many times the variables in the TLS area of a task are borrowed.
    fn borrows(&self, r: &TaskRef) -> (borrows: usize)
        requires
            self@.has(*r),
        ensures
            borrows == self@.tls[r.index()].borrows,
    {
        self.slots[r.slot()].as_ref().unwrap().tls.borrows
    }

    /// Sets the variables in the TLS area of a task, or else in that of a core without tasks.
    pub(crate) fn set_tls(&mut self, cpu: &mut Cpu, area: Option<TaskRef>, vars: TlsVariables)
        requires
            old(self)@.wf(),
            old(self)@.cpu_wf(old(cpu)@),
            old(self)@.tls_wf(vars),
            area matches Some(r) ==> old(self)@.has(r),
        ensures
            final(self)@ == (match area {
                Some(r) => (SystemView {
                    tls: old(self)@.tls.insert(r.index(), vars),
                    ..old(self)@
                }),
                None => old(self)@,
            }),
            final(cpu)@ == (match area {
                Some(_) => old(cpu)@,
                None => (CpuView { boot_tls: vars, ..old(cpu)@ }),
            }),
            old(self)@.stays_valid_as(final(self)@),
            final(self)@.cpu_wf(final(cpu)@),
    {
        match area {
            Some(r) => {
                self.slots[r.slot()].as_mut().unwrap().tls = vars;
                proof {
                    assert(self@ =~= SystemView {
                        tls: old(self)@.tls.insert(r.index(), vars),
                        ..old(self)@
                    });
                    assert forall|i: int| self@.tasks.contains_key(i) implies #[trigger] self@.task_wf(
                        i,
                    ) by {
                        assert(old(self)@.task_wf(i));
                    }
                }
            },
            None => {
                cpu.boot_tls = vars;
            },
        }
    }

    /// Sets the variables in the TLS area that is active on a core.
    pub(crate) fn set_active_tls(&mut self, cpu: &mut Cpu, vars: TlsVariables)
        requires
            old(self)@.wf(),
            old(self)@.cpu_wf(old(cpu)@),
            old(self)@.tls_wf(vars),
        ensures
            final(self)@ == old(self)@.with_active_tls(old(cpu)@, vars),
            final(cpu)@ == old(cpu)@.with_active_tls(vars),
            old(self)@.stays_valid_as(final(self)@),
            final(self)@.cpu_wf(final(cpu)@),
    {
        let area = cpu.fs_task;
        self.set_tls(cpu, area, vars);
    }

    /// Returns the variables in the TLS area of a task, or else in that of a core without tasks.
    pub(crate) fn tls(&self, cpu: &Cpu, area: Option<TaskRef>) -> (vars: TlsVariables)
        requires
            self@.wf(),
            self@.cpu_wf(cpu@),
            area matches Some(r) ==> self@.has(r),
        ensures
            vars == (match area {
                Some(r) => self@.tls[r.index()],
                None => cpu@.boot_tls,
            }),
            self@.tls_wf(vars),
    {
        match area {
            Some(r) => {
                proof {
                    assert(self@.task_wf(r.index()));
                }
                self.slots[r.slot()].as_ref().unwrap().tls
            },
            None => cpu.boot_tls,
        }
    }

    /// Returns the variables in the TLS area that is active on a core.
    pub(crate) fn active_tls(&self, cpu: &Cpu) -> (vars: TlsVariables)
        requires
            self@.wf(),
            self@.cpu_wf(cpu@),
        ensures
            vars == self@.active_tls(cpu@),
            self@.tls_wf(vars),
    {
        self.tls(cpu, cpu.fs_task)
    }
}

impl TaskRef {
    /// Makes the task the current one of a core, by pointing the registers of the core to the
    /// TLS area of the task and to its local data.
    pub(crate) fn set_as_current_task<P: Platform>(&self, system: &TaskSystem<P>, cpu: &mut Cpu)
        requires
            system@.wf(),
            system@.cpu_wf(old(cpu)@),
            system@.has(*self),
            has_virtual_form(system@.task(*self).tls_area.pointer_value as u64),
        ensures
            final(cpu)@ == system@.cpu_running(old(cpu)@, *self),
            system@.cpu_wf(final(cpu)@),
    {
        let task = system.task(self);
        cpu.fs_base = virtual_address(task.tls_pointer_value() as u64);
        cpu.fs_task = Some(*self);
        if let Some(data) = task.local_data() {
            cpu.gs_base = Some(data);
        }
        proof {
            assert(system@.task_wf(self.index()));
        }
    }

    /// Returns the text that shows the task behind the reference for debugging.
    /// See `Task::debug_string`.
    pub fn debug_string<P: Platform>(&self, system: &TaskSystem<P>, inner_is_locked: bool) -> (out:
        String)
        requires
            system@.has(*self),
        ensures
            out@ == "TaskRef("@ + system@.task(*self).debug_text(inner_is_locked) + ")"@,
    {
        let mut out = String::new();
        out.append("TaskRef(");
        let text = system.task(self).debug_string(inner_is_locked);
        out.append(text.as_str());
        out.append(")");
        proof {
            assert(out@ =~= "TaskRef("@ + system@.task(*self).debug_text(inner_is_locked) + ")"@);
        }
        out
    }
}

impl JoinableTaskRef {
    /// Returns the text that shows the task behind the reference for debugging.
    /// See `Task::debug_string`.
    pub fn debug_string<P: Platform>(&self, system: &TaskSystem<P>, inner_is_locked: bool) -> (out:
        String)
        requires
            system@.has(self.task()),
        ensures
            out@ == "JoinableTaskRef { task: "@ + ("TaskRef("@ + system@.task(
                self.task(),
            ).debug_text(inner_is_locked) + ")"@) + " }"@,
    {
        let mut out = String::new();
        out.append("JoinableTaskRef { task: ");
        let r: TaskRef = **self;
        let text = r.debug_string(system, inner_is_locked);
        out.append(text.as_str());
        out.append(" }");
        out
    }
}

impl SharedTaskRef {
    /// Gives up a counted reference. If it was the last one, and nothing else refers to the task,
    /// then the task is taken out of the system and returned. See `TaskSystem::release`.
    pub fn drop<P: Platform>(self, system: &mut TaskSystem<P>, cores: &Vec<&Cpu>) -> (released: Option<
        Task<P>,
    >)
        requires
            old(system)@.wf(),
            old(system)@.has(self.task()),
            old(system)@.references[self.task().index()] > 0,
        ensures
            ({
                let r = self.task();
                let given_up = old(system)@.with_references(
                    r,
                    (old(system)@.references[r.index()] - 1) as usize,
                );
                &&& released is Some <==> given_up.is_releasable(r) && none_refers_to(cores@, r)
                &&& match released {
                    Some(task) => {
                        &&& task@ == old(system)@.task(r)
                        &&& final(system)@ == given_up.without_task(r)
                    },
                    None => final(system)@ == given_up,
                }
                &&& old(system)@.stays_valid_as(given_up)
                &&& given_up.evolves_to(final(system)@)
            }),
            final(system)@.wf(),
            forall|cpu: CpuView|
                #![trigger final(system)@.cpu_wf(cpu)]
                old(system)@.cpu_wf(cpu) && !cpu.refers_to(self.task()) ==> final(system)@.cpu_wf(
                    cpu,
                ),
    {
        let r: TaskRef = *self;
        let references = system.references(&r);
        system.set_references(&r, references - 1);
        system.release(&r, cores)
    }
}

/// Returns the local data of the current task,
/// by using the pointer to it in the register of the core.
pub fn get_task_local_data(cpu: &Cpu) -> (data: Option<&TaskLocalData>)
    ensures
        match data {
            Some(data) => cpu@.gs_base == Some(*data),
            None => cpu@.gs_base is None,
        },
{
    match &cpu.gs_base {
        Some(data) => Some(data),
        None => None,
    }
}

/// A change of the list keeps the system valid, as long as the list has tasks of the system
/// under their own IDs.
pub(crate) proof fn lemma_same_tasks_wf<P: Platform>(before: SystemView<P>, after: SystemView<P>)
    requires
        before.wf(),
        after.tasks == before.tasks,
        after.tls == before.tls,
        after.references == before.references,
        after.slots == before.slots,
        forall|id: usize| #[trigger]
            after.task_list.contains_key(id) ==> after.has(after.task_list[id])
                && after.task(after.task_list[id]).id == id,
    ensures
        before.stays_valid_as(after),
{
    assert forall|i: int| after.tasks.contains_key(i) implies #[trigger] after.task_wf(i) by {
        assert(before.task_wf(i));
    }
}

/// Setting the variables in the active TLS area to what they are changes nothing.
pub(crate) proof fn lemma_same_active_tls<P: Platform>(system: SystemView<P>, cpu: CpuView)
    requires
        system.wf(),
        system.cpu_wf(cpu),
    ensures
        system.with_active_tls(cpu, system.active_tls(cpu)) == system,
        cpu.with_active_tls(system.active_tls(cpu)) == cpu,
{
    if let Some(r) = cpu.fs_task {
        assert(system.task_wf(r.index()));
        assert(system.tls.insert(r.index(), system.tls[r.index()]) =~= system.tls);
    }
}

/// A change of one task keeps the system valid, as long as the new state of the task is valid and
/// one that an operation can lead to, and it tells tasks of the system in the places where it
/// tells tasks.
pub(crate) proof fn lemma_with_task_wf<P: Platform>(
    system: SystemView<P>,
    r: TaskRef,
    task: TaskView<P>,
)
    requires
        system.wf(),
        system.has(r),
        task.wf(),
        system.task(r).evolves_to(task),
        task.inner.task_local_data matches Some(data) ==> system.data_wf(data)
            && data.taskref.index() == r.index(),
        task.inner.drop_after_task_switch matches Some(data) ==> system.data_wf(data),
    ensures
        system.stays_valid_as(system.with_task(r, task)),
{
    let after = system.with_task(r, task);
    assert forall|i: int| after.tasks.contains_key(i) implies #[trigger] after.task_wf(i) by {
        assert(system.task_wf(i));
    }
}

/// Taking out a task that nothing refers to keeps the system valid.
proof fn lemma_without_task_wf<P: Platform>(system: SystemView<P>, r: TaskRef)
    requires
        system.wf(),
        system.has(r),
        system.is_releasable(r),
    ensures
        system.without_task(r).wf(),
        system.evolves_to(system.without_task(r)),
        forall|cpu: CpuView|
            #![trigger system.without_task(r).cpu_wf(cpu)]
            system.cpu_wf(cpu) && !cpu.refers_to(r) ==> system.without_task(r).cpu_wf(cpu),
{
    let after = system.without_task(r);
    assert forall|s: TaskRef| #[trigger] s.index() == r.index() implies s == r by {
        law_equal_references_name_one_task(s, r);
    }
    assert forall|i: int| after.tasks.contains_key(i) implies #[trigger] after.task_wf(i) by {
        assert(system.task_wf(i));
        assert(!system.task_refers_to(i, r));
    }
    assert forall|s: TaskRef| system.has(s) implies #[trigger] system.task_evolves_to(after, s) by {
        law_equal_references_name_one_task(r, s);
    }
}

} // verus!
