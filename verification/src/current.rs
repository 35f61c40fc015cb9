//! The current task, and the tasks that are found by their IDs.
//!
//! The current task is told in two ways: by the local data that a register of the core
//! points to, and by the variables in the active thread-local storage (TLS) area.
use crate::system::{
    get_task_local_data, lemma_same_active_tls, lemma_with_task_wf, Cpu, CpuView, SystemView,
    TaskSystem,
};
use crate::task::Platform;
use crate::task_ref::{listed, TaskRef, TlsVariables};
use vstd::prelude::*;

verus! {

/// The error of registering a kill handler where there is no current task.
pub const NO_CURRENT_TASK: &'static str = "couldn't get current task";

/// The task that can be set as the current one under the given ID: `current_task` if that is its
/// ID, or else, if no task is given, the one that the task list has under this ID.
pub open spec fn init_target<P: Platform>(
    system: SystemView<P>,
    current_task_id: usize,
    current_task: Option<TaskRef>,
) -> Option<TaskRef> {
    match current_task {
        Some(r) => if system.task(r).id == current_task_id {
            Some(r)
        } else {
            None
        },
        None => listed(system.task_list, current_task_id),
    }
}

/// The task that `init_current_task` sets as the current one,
/// which is none if a current task has already been set, or if it is borrowed.
pub open spec fn init_result<P: Platform>(
    system: SystemView<P>,
    cpu: CpuView,
    current_task_id: usize,
    current_task: Option<TaskRef>,
) -> Option<TaskRef> {
    if system.active_tls(cpu).current_task is Some || system.active_tls(cpu).borrows > 0 {
        None
    } else {
        init_target(system, current_task_id, current_task)
    }
}

/// The task that `deinit_current_task` takes away from being the current one,
/// which is none unless there is a current task, it has exited, and it is not borrowed.
pub open spec fn deinit_result<P: Platform>(
    system: SystemView<P>,
    cpu: CpuView,
) -> Option<TaskRef> {
    match system.active_tls(cpu).current_task {
        Some(r) => if system.task(r).runstate.is_over() && system.active_tls(cpu).borrows == 0 {
            Some(r)
        } else {
            None
        },
        None => None,
    }
}

/// The variables in the active TLS area after `deinit_current_task`.
pub open spec fn deinit_tls<P: Platform>(
    system: SystemView<P>,
    cpu: CpuView,
) -> TlsVariables {
    let vars = system.active_tls(cpu);
    if deinit_result(system, cpu) is Some {
        TlsVariables { current_task: None, ..vars }
    } else {
        vars
    }
}

/// Returns a reference to the task with the given ID, if the task list has one.
pub fn get_task<P: Platform>(system: &TaskSystem<P>, task_id: usize) -> (task: Option<TaskRef>)
    ensures
        task == listed(system@.task_list, task_id),
{
    system.task_list().get(task_id)
}

/// Returns a reference to the current task of a core, as told by its register.
pub fn get_my_current_task(cpu: &Cpu) -> (task: Option<TaskRef>)
    ensures
        task == cpu@.current(),
{
    match get_task_local_data(cpu) {
        Some(data) => Some(data.taskref),
        None => None,
    }
}

/// Registers a kill handler function for the current task, as told by the register of the core.
///
/// Kill handlers are called when a task panics or otherwise fails,
/// e.g. due to a machine exception.
pub fn set_kill_handler<P: Platform>(
    system: &mut TaskSystem<P>,
    cpu: &Cpu,
    function: P::KillHandler,
) -> (result: Result<(), &'static str>)
    requires
        old(system)@.wf(),
        old(system)@.cpu_wf(cpu@),
    ensures
        match cpu@.current() {
            Some(r) => {
                &&& result is Ok
                &&& final(system)@ == old(system)@.with_task(
                    r,
                    old(system)@.task(r).with_kill_handler(Some(function)),
                )
            },
            None => {
                &&& result == Err::<(), &'static str>(NO_CURRENT_TASK)
                &&& final(system)@ == old(system)@
            },
        },
        old(system)@.stays_valid_as(final(system)@),
{
    match get_my_current_task(cpu) {
        Some(r) => {
            proof {
                assert(system@.task_wf(r.index()));
                lemma_with_task_wf(
                    system@,
                    r,
                    system@.task(r).with_kill_handler(Some(function)),
                );
            }
            system.task_mut(&r).set_kill_handler(function);
            Ok(())
        },
        None => Err(NO_CURRENT_TASK),
    }
}

/// Takes the kill handler function of the current task, as told by the active TLS area. This is
/// another task than the register of the core tells, or none, if the core was switched to a task
/// that was not yet set as the current one in its TLS area.
///
/// The registered kill handler is removed from that task, if it exists, and returned.
/// After this, the kill handler of that task is `None`.
pub fn take_kill_handler<P: Platform>(system: &mut TaskSystem<P>, cpu: &Cpu) -> (handler: Option<
    P::KillHandler,
>)
    requires
        old(system)@.wf(),
        old(system)@.cpu_wf(cpu@),
    ensures
        match old(system)@.active_tls(cpu@).current_task {
            Some(r) => {
                &&& handler == old(system)@.task(r).inner.kill_handler
                &&& final(system)@ == old(system)@.with_task(
                    r,
                    old(system)@.task(r).with_kill_handler(None),
                )
            },
            None => {
                &&& handler is None
                &&& final(system)@ == old(system)@
            },
        },
        old(system)@.stays_valid_as(final(system)@),
{
    match get_current_task(system, cpu) {
        Some(r) => {
            proof {
                assert(system@.task_wf(r.index()));
                lemma_with_task_wf(system@, r, system@.task(r).with_kill_handler(None));
            }
            system.task_mut(&r).take_kill_handler()
        },
        None => None,
    }
}

/// Invokes the given `function` with a reference to the current task.
///
/// Returns an error if there is no current task.
pub fn with_current_task<P: Platform, F, R>(
    system: &TaskSystem<P>,
    cpu: &Cpu,
    function: F,
) -> (result: Result<R, ()>)
    where F: FnOnce(&TaskRef) -> R
    requires
        system@.wf(),
        system@.cpu_wf(cpu@),
        system@.active_tls(cpu@).current_task matches Some(r) ==> call_requires(function, (&r,)),
    ensures
        match system@.active_tls(cpu@).current_task {
            Some(r) => result matches Ok(value) && call_ensures(function, (&r,), value),
            None => result is Err,
        },
{
    match system.active_tls(cpu).current_task {
        Some(r) => Ok(function(&r)),
        None => Err(()),
    }
}

/// A borrow of the current task, as told by a TLS area. It lasts until `end` consumes it.
#[must_use]
pub struct CurrentTaskBorrow {
    /// The task whose TLS area it is, or else none, where it is that of a core without tasks.
    area: Option<TaskRef>,
    task: TaskRef,
}

impl CurrentTaskBorrow {
    /// The task whose TLS area tells the borrowed task.
    pub closed spec fn area(self) -> Option<TaskRef> {
        self.area
    }

    /// The borrowed task.
    pub closed spec fn task(self) -> TaskRef {
        self.task
    }

    /// Returns the borrowed task.
    pub fn get(&self) -> (task: &TaskRef)
        ensures
            *task == self.task(),
    {
        &self.task
    }

    /// Ends the borrow. The core is the one that the borrow began on, if it had no tasks then.
    pub fn end<P: Platform>(self, system: &mut TaskSystem<P>, cpu: &mut Cpu)
        requires
            old(system)@.wf(),
            old(system)@.cpu_wf(old(cpu)@),
            self.area() matches Some(r) ==> old(system)@.has(r),
            area_tls(old(system)@, old(cpu)@, self.area()).borrows > 0,
        ensures
            ({
                let vars = area_tls(old(system)@, old(cpu)@, self.area());
                let ended = TlsVariables { borrows: (vars.borrows - 1) as usize, ..vars };
                &&& final(system)@ == with_area_tls(old(system)@, self.area(), ended)
                &&& final(cpu)@ == (if self.area() is Some {
                    old(cpu)@
                } else {
                    CpuView { boot_tls: ended, ..old(cpu)@ }
                })
            }),
            old(system)@.stays_valid_as(final(system)@),
            final(system)@.cpu_wf(final(cpu)@),
    {
        let vars = system.tls(cpu, self.area);
        system.set_tls(cpu, self.area, TlsVariables { borrows: vars.borrows - 1, ..vars });
    }
}

/// The variables in the TLS area of a task, or else in that of a core without tasks.
pub open spec fn area_tls<P: Platform>(
    system: SystemView<P>,
    cpu: CpuView,
    area: Option<TaskRef>,
) -> TlsVariables {
    match area {
        Some(r) => system.tls[r.index()],
        None => cpu.boot_tls,
    }
}

/// The system with other variables in the TLS area of a task, if it is one.
pub open spec fn with_area_tls<P: Platform>(
    system: SystemView<P>,
    area: Option<TaskRef>,
    vars: TlsVariables,
) -> SystemView<P> {
    match area {
        Some(r) => SystemView { tls: system.tls.insert(r.index(), vars), ..system },
        None => system,
    }
}

/// Borrows the current task. As long as it is borrowed, no task can be set as the current one in
/// the TLS area that told it, nor can the current task be de-initialized there.
///
/// Returns `None` if there is no current task, or if it is borrowed too many times already.
pub fn borrow_current_task<P: Platform>(system: &mut TaskSystem<P>, cpu: &mut Cpu) -> (borrow: Option<
    CurrentTaskBorrow,
>)
    requires
        old(system)@.wf(),
        old(system)@.cpu_wf(old(cpu)@),
    ensures
        ({
            let vars = old(system)@.active_tls(old(cpu)@);
            match vars.current_task {
                Some(r) if vars.borrows < usize::MAX => {
                    let begun = TlsVariables { borrows: (vars.borrows + 1) as usize, ..vars };
                    &&& borrow matches Some(b) && b.task() == r && b.area() == old(cpu)@.fs_task
                    &&& final(system)@ == old(system)@.with_active_tls(old(cpu)@, begun)
                    &&& final(cpu)@ == old(cpu)@.with_active_tls(begun)
                },
                _ => {
                    &&& borrow is None
                    &&& final(system)@ == old(system)@
                    &&& final(cpu)@ == old(cpu)@
                },
            }
        }),
        old(system)@.stays_valid_as(final(system)@),
        final(system)@.cpu_wf(final(cpu)@),
{
    let vars = system.active_tls(cpu);
    match vars.current_task {
        Some(task) => {
            if vars.borrows == usize::MAX {
                return None;
            }
            let area = cpu.active_area();
            system.set_active_tls(cpu, TlsVariables { borrows: vars.borrows + 1, ..vars });
            Some(CurrentTaskBorrow { area, task })
        },
        None => None,
    }
}

/// Returns a reference to the current task, as told by the active TLS area.
pub fn get_current_task<P: Platform>(system: &TaskSystem<P>, cpu: &Cpu) -> (task: Option<TaskRef>)
    requires
        system@.wf(),
        system@.cpu_wf(cpu@),
    ensures
        task == system@.active_tls(cpu@).current_task,
        task matches Some(r) ==> system@.has(r),
{
    system.active_tls(cpu).current_task
}

/// Returns the unique ID of the current task.
pub fn get_my_current_task_id<P: Platform>(system: &TaskSystem<P>, cpu: &Cpu) -> (id: Option<usize>)
    requires
        system@.wf(),
        system@.cpu_wf(cpu@),
    ensures
        id == Some(system@.active_tls(cpu@).current_task_id),
{
    Some(system.active_tls(cpu).current_task_id)
}

/// Sets the given task as the current task.
///
/// If `current_task` is `Some`, its ID must match `current_task_id`. If `current_task` is `None`,
/// the task must already be on the task list, so that a reference to it can be retrieved.
///
/// Returns an error if this is not so, if the current task has already been set,
/// or if it is borrowed.
pub fn init_current_task<P: Platform>(
    system: &mut TaskSystem<P>,
    cpu: &mut Cpu,
    current_task_id: usize,
    current_task: Option<TaskRef>,
) -> (result: Result<TaskRef, ()>)
    requires
        old(system)@.wf(),
        old(system)@.cpu_wf(old(cpu)@),
        current_task matches Some(r) ==> old(system)@.has(r),
    ensures
        match init_result(old(system)@, old(cpu)@, current_task_id, current_task) {
            Some(r) => {
                let vars = TlsVariables { current_task_id, current_task: Some(r), borrows: 0 };
                &&& result == Ok::<TaskRef, ()>(r)
                &&& final(system)@ == old(system)@.with_active_tls(old(cpu)@, vars)
                &&& final(cpu)@ == old(cpu)@.with_active_tls(vars)
            },
            None => {
                &&& result is Err
                &&& final(system)@ == old(system)@
                &&& final(cpu)@ == old(cpu)@
            },
        },
        old(system)@.stays_valid_as(final(system)@),
        final(system)@.cpu_wf(final(cpu)@),
{
    let r = match current_task {
        Some(r) => {
            if system.task(&r).task_id() != current_task_id {
                return Err(());
            }
            r
        },
        None => match system.task_list().get(current_task_id) {
            Some(r) => r,
            None => {
                return Err(());
            },
        },
    };
    let vars = system.active_tls(cpu);
    if vars.current_task.is_none() && vars.borrows == 0 {
        system.set_active_tls(
            cpu,
            TlsVariables { current_task_id, current_task: Some(r), borrows: 0 },
        );
        Ok(r)
    } else {
        Err(())
    }
}

/// De-initializes the current task, so that the active TLS area does not keep it
/// from being released.
///
/// Returns an error if there is no current task, if it has not yet exited, or if it is borrowed.
pub fn deinit_current_task<P: Platform>(
    system: &mut TaskSystem<P>,
    cpu: &mut Cpu,
) -> (result: Result<TaskRef, ()>)
    requires
        old(system)@.wf(),
        old(system)@.cpu_wf(old(cpu)@),
    ensures
        match deinit_result(old(system)@, old(cpu)@) {
            Some(r) => result == Ok::<TaskRef, ()>(r),
            None => result is Err,
        },
        final(system)@ == old(system)@.with_active_tls(
            old(cpu)@,
            deinit_tls(old(system)@, old(cpu)@),
        ),
        final(cpu)@ == old(cpu)@.with_active_tls(deinit_tls(old(system)@, old(cpu)@)),
        old(system)@.stays_valid_as(final(system)@),
        final(system)@.cpu_wf(final(cpu)@),
{
    let vars = system.active_tls(cpu);
    proof {
        lemma_same_active_tls(system@, cpu@);
    }
    match vars.current_task {
        Some(r) => {
            if system.task(&r).has_exited() && vars.borrows == 0 {
                system.set_active_tls(cpu, TlsVariables { current_task: None, ..vars });
                Ok(r)
            } else {
                Err(())
            }
        },
        None => Err(()),
    }
}

} // verus!
