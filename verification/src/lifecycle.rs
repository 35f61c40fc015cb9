//! The life of a task: its creation, its changes of state, and its end.
use crate::current::get_my_current_task;
use crate::exit::{ExitValue, KillReason};
use crate::run_state::RunState;
use crate::system::{lemma_same_tasks_wf, lemma_with_task_wf, Cpu, CpuView, SystemView, TaskSystem};
use crate::task::{InnerView, Platform, Task, TaskView, TlsDataImage};
use crate::task_ref::{JoinableTaskRef, TaskLocalData, TaskRef, TlsVariables};
use std::sync::Arc;
use vstd::prelude::*;

verus! {

/// The error of creating a task without a parent where there is no current task.
pub const NO_PARENT_TASK: &'static str =
    "Task::new(): `parent_task` wasn't provided, and couldn't get current task";

/// The error of creating a task where no kernel stack can be had.
pub const NO_KERNEL_STACK: &'static str = "couldn't allocate kernel stack!";

/// The error of joining a task where there is no current task.
pub const JOIN_WITHOUT_CURRENT_TASK: &'static str =
    "join(): failed to check what current task is";

/// The error of a task that joins itself.
pub const JOIN_OF_CURRENT_TASK: &'static str =
    "BUG: cannot call join() on yourself (the current task).";

/// The error of joining a task while interrupts are disabled.
pub const JOIN_WITHOUT_INTERRUPTS: &'static str =
    "BUG: cannot call join() with interrupts disabled; it will cause deadlock.";

/// The error of marking a task as killed where there is no current task.
pub const KILLED_WITHOUT_CURRENT_TASK: &'static str =
    "mark_as_exited(): failed to check the current task";

/// The error of marking a task as killed that is not the current one.
pub const KILLED_OTHER_TASK: &'static str =
    "`mark_as_exited()` can only be invoked on the current task, not on another task.";

/// The task that a new task inherits from:
/// the given parent, or else the current task of the core.
pub open spec fn parent_of(
    cpu: CpuView,
    parent_task: Option<&TaskRef>,
) -> Option<TaskRef> {
    match parent_task {
        Some(r) => Some(*r),
        None => cpu.current(),
    }
}

/// A new task with the ID, the stack and the TLS area given,
/// which inherits everything that tasks share from `parent`.
pub open spec fn inheriting<P: Platform>(
    parent: TaskView<P>,
    id: usize,
    kstack: P::Stack,
    failure_cleanup_function: P::FailureCleanupFunction,
    tls_area: TlsDataImage<P::TlsData>,
) -> TaskView<P> {
    TaskView::fresh(
        id,
        InnerView::fresh(kstack, parent.inner.env),
        parent.mmi,
        parent.namespace,
        parent.app_crate,
        failure_cleanup_function,
        tls_area,
    )
}

/// The outcome of creating a task that has its stack: it inherits from `parent`, its TLS area is
/// one that `tls_image` gave for the namespace of `parent`, and it got the next task ID.
pub open spec fn created<P: Platform, G: FnOnce(&Arc<P::CrateNamespace>) -> TlsDataImage<
    P::TlsData,
>>(
    before: SystemView<P>,
    after: SystemView<P>,
    parent: TaskRef,
    kstack: P::Stack,
    failure_cleanup_function: P::FailureCleanupFunction,
    tls_image: G,
    result: Result<Task<P>, &'static str>,
) -> bool {
    &&& after == before.with_next_id()
    &&& result matches Ok(task) && exists|tls_area: TlsDataImage<P::TlsData>| #[trigger]
        call_ensures(tls_image, (&before.task(parent).namespace,), tls_area) && task@
            == inheriting(
            before.task(parent),
            before.next_task_id,
            kstack,
            failure_cleanup_function,
            tls_area,
        )
}

/// The system with a new task, which is joinable and whose local data refer back to it.
pub open spec fn with_new_task<P: Platform>(
    system: SystemView<P>,
    task: TaskView<P>,
    r: TaskRef,
) -> SystemView<P> {
    SystemView {
        tasks: system.tasks.insert(
            r.index(),
            task.with_local_data(
                Some(TaskLocalData { taskref: r, task_id: task.id }),
            ).with_joinable(true),
        ),
        tls: system.tls.insert(r.index(), TlsVariables::initial()),
        references: system.references.insert(r.index(), 0),
        slots: system.slots + 1,
        ..system
    }
}

impl<P: Platform> Task<P> {
    /// Creates a new task, which is not runnable.
    ///
    /// The new task inherits some of its states from `parent_task`, or from the current task
    /// if that is `None`: its environment, memory management details, namespace and
    /// application crate.
    ///
    /// If `kstack` is `None`, then `alloc_stack` is asked for a stack of the default size,
    /// given in pages, in the address space of the parent.
    /// The TLS area of the new task is the one that `tls_image` makes for its namespace.
    ///
    /// Returns an error if there is no parent, or if no stack can be had.
    pub fn new<F, G>(
        system: &mut TaskSystem<P>,
        cpu: &Cpu,
        kstack: Option<P::Stack>,
        parent_task: Option<&TaskRef>,
        failure_cleanup_function: P::FailureCleanupFunction,
        alloc_stack: F,
        tls_image: G,
    ) -> (result: Result<Task<P>, &'static str>)
        where
            F: FnOnce(usize, &Arc<P::MemoryManagement>) -> Option<P::Stack>,
            G: FnOnce(&Arc<P::CrateNamespace>) -> TlsDataImage<P::TlsData>,
        requires
            old(system)@.wf(),
            old(system)@.cpu_wf(cpu@),
            parent_task matches Some(r) ==> old(system)@.has(*r),
            parent_of(cpu@, parent_task) matches Some(r) ==> {
                &&& kstack is None ==> call_requires(
                    alloc_stack,
                    (old(system)@.kernel_stack_size_in_pages, &old(system)@.task(r).mmi),
                )
                &&& call_requires(tls_image, (&old(system)@.task(r).namespace,))
            },
        ensures
            parent_of(cpu@, parent_task) is None ==> {
                &&& result == Err::<Task<P>, &'static str>(NO_PARENT_TASK)
                &&& final(system)@ == old(system)@
            },
            parent_of(cpu@, parent_task) matches Some(r) ==> match kstack {
                Some(stack) => created(
                    old(system)@,
                    final(system)@,
                    r,
                    stack,
                    failure_cleanup_function,
                    tls_image,
                    result,
                ),
                None => exists|allocated: Option<P::Stack>| #[trigger]
                    call_ensures(
                        alloc_stack,
                        (old(system)@.kernel_stack_size_in_pages, &old(system)@.task(r).mmi),
                        allocated,
                    ) && match allocated {
                        Some(stack) => created(
                            old(system)@,
                            final(system)@,
                            r,
                            stack,
                            failure_cleanup_function,
                            tls_image,
                            result,
                        ),
                        None => {
                            &&& result == Err::<Task<P>, &'static str>(NO_KERNEL_STACK)
                            &&& final(system)@ == old(system)@
                        },
                    },
            },
            old(system)@.stays_valid_as(final(system)@),
    {
        let chosen_parent = match parent_task {
            Some(r) => Some(*r),
            None => get_my_current_task(cpu),
        };
        let parent_ref = match chosen_parent {
            Some(r) => r,
            None => {
                return Err(NO_PARENT_TASK);
            },
        };
        let parent = system.task(&parent_ref);
        let mmi = parent.shared_mmi();
        let namespace = Arc::clone(parent.get_namespace());
        let env = parent.get_env();
        let app_crate = parent.shared_app_crate();

        let obtained = match kstack {
            Some(stack) => Some(stack),
            None => alloc_stack(system.kernel_stack_pages(), &mmi),
        };
        let kstack = match obtained {
            Some(stack) => stack,
            None => {
                return Err(NO_KERNEL_STACK);
            },
        };
        Ok(
            Task::new_internal(
                system,
                kstack,
                mmi,
                namespace,
                env,
                app_crate,
                failure_cleanup_function,
                tls_image,
            ),
        )
    }

    /// Creates a task from its parts, without regard to whether there is a current task.
    /// It gets the next task ID, and the TLS area that `tls_image` makes for its namespace.
    pub(crate) fn new_internal<G>(
        system: &mut TaskSystem<P>,
        kstack: P::Stack,
        mmi: Arc<P::MemoryManagement>,
        namespace: Arc<P::CrateNamespace>,
        env: Arc<P::Environment>,
        app_crate: Option<Arc<P::AppCrate>>,
        failure_cleanup_function: P::FailureCleanupFunction,
        tls_image: G,
    ) -> (task: Task<P>)
        where G: FnOnce(&Arc<P::CrateNamespace>) -> TlsDataImage<P::TlsData>
        requires
            old(system)@.wf(),
            call_requires(tls_image, (&namespace,)),
        ensures
            exists|tls_area: TlsDataImage<P::TlsData>| #[trigger]
                call_ensures(tls_image, (&namespace,), tls_area) && task@ == TaskView::<P>::fresh(
                    old(system)@.next_task_id,
                    InnerView::<P>::fresh(kstack, env),
                    mmi,
                    namespace,
                    app_crate,
                    failure_cleanup_function,
                    tls_area,
                ),
            final(system)@ == old(system)@.with_next_id(),
            old(system)@.stays_valid_as(final(system)@),
    {
        let task_id = system.take_task_id();
        proof {
            lemma_same_tasks_wf(old(system)@, system@);
        }
        let tls_area = tls_image(&namespace);
        Task::with_parts(
            task_id,
            kstack,
            mmi,
            namespace,
            env,
            app_crate,
            failure_cleanup_function,
            tls_area,
        )
    }
}

/// What comes of leaving the runqueue that an exit reported: the error of an exit that failed stays.
/// Otherwise `remove` was called for the task and the runqueue that it is on, if there are such,
/// and its result is the result.
pub open spec fn runqueue_left<F: FnOnce(&TaskRef, u8) -> Result<(), &'static str>>(
    task: &TaskRef,
    exited: Result<Option<u8>, &'static str>,
    remove: Option<F>,
    result: Result<(), &'static str>,
) -> bool {
    match (exited, remove) {
        (Err(error), _) => result == Err::<(), &'static str>(error),
        (Ok(Some(runqueue)), Some(f)) => call_ensures(f, (task, runqueue), result),
        _ => result == Ok::<(), &'static str>(()),
    }
}

/// What an exit reports to the one who asked for it: whether the exit status was set.
pub open spec fn exit_result(exited: Result<Option<u8>, &'static str>) -> Result<
    (),
    &'static str,
> {
    match exited {
        Err(error) => Err(error),
        Ok(_) => Ok(()),
    }
}

/// If the exit status was set, then `remove` was called for the task and the runqueue that it is on,
/// if there are such.
pub open spec fn runqueue_removal_called<F: FnOnce(&TaskRef, u8) -> Result<(), &'static str>>(
    task: &TaskRef,
    exited: Result<Option<u8>, &'static str>,
    remove: Option<F>,
) -> bool {
    exited matches Ok(Some(runqueue)) ==> (remove matches Some(f) ==> exists|
        left: Result<(), &'static str>,
    | #[trigger] call_ensures(f, (task, runqueue), left))
}

/// If the runqueue that an exit reported is to be left, then `remove` can be called for it.
pub open spec fn runqueue_can_be_left<F: FnOnce(&TaskRef, u8) -> Result<(), &'static str>>(
    task: &TaskRef,
    exited: Result<Option<u8>, &'static str>,
    remove: Option<F>,
) -> bool {
    exited matches Ok(Some(runqueue)) ==> (remove matches Some(f) ==> call_requires(
        f,
        (task, runqueue),
    ))
}

/// How far the waiting for the end of a task has come.
#[derive(Copy, Clone, Debug, PartialEq, Eq, Structural)]
pub enum JoinPhase {
    /// Waiting for the task to be marked as exited.
    AwaitExit,
    /// Waiting for the exited task to actually stop running on any core.
    AwaitStop,
    /// The task has come to its end.
    Joined,
}

/// How far the waiting has come after another look at the task.
pub open spec fn join_next<P: Platform>(
    phase: JoinPhase,
    task: TaskView<P>,
) -> JoinPhase {
    match phase {
        JoinPhase::AwaitExit => if task.runstate.is_over() {
            JoinPhase::AwaitStop
        } else {
            phase
        },
        JoinPhase::AwaitStop => if task.running_on_cpu is None {
            JoinPhase::Joined
        } else {
            phase
        },
        JoinPhase::Joined => phase,
    }
}

/// What `join` reports before it waits.
pub open spec fn join_report(
    cpu: CpuView,
    r: TaskRef,
    interrupts_enabled: bool,
) -> Result<JoinPhase, &'static str> {
    match cpu.current() {
        None => Err(JOIN_WITHOUT_CURRENT_TASK),
        Some(current) => if r == current {
            Err(JOIN_OF_CURRENT_TASK)
        } else if !interrupts_enabled {
            Err(JOIN_WITHOUT_INTERRUPTS)
        } else {
            Ok(JoinPhase::AwaitExit)
        },
    }
}

/// What `mark_as_killed` reports.
pub open spec fn killed_report<P: Platform>(
    system: SystemView<P>,
    cpu: CpuView,
    r: TaskRef,
) -> Result<Option<u8>, &'static str> {
    match cpu.current() {
        None => Err(KILLED_WITHOUT_CURRENT_TASK),
        Some(current) => if r == current {
            system.task(r).exit_report()
        } else {
            Err(KILLED_OTHER_TASK)
        },
    }
}

impl TaskRef {
    /// Makes a task part of the system, and returns the joinable reference to it.
    ///
    /// This also initializes the local data of the task, which tell the current task of a core.
    /// It does *not* add the task to the task list or to any runqueue, nor does it schedule it.
    pub fn new<P: Platform>(system: &mut TaskSystem<P>, task: Task<P>) -> (joinable: JoinableTaskRef)
        requires
            old(system)@.wf(),
            task@.wf(),
            task@.is_unswitched(),
        ensures
            joinable.task().index() == old(system)@.slots,
            final(system)@ == with_new_task(old(system)@, task@, joinable.task()),
            old(system)@.stays_valid_as(final(system)@),
    {
        let task_id = task.task_id();
        let taskref = system.push(task);
        let data = TaskLocalData { taskref, task_id };
        system.task_mut(&taskref).set_local_data(data);

        // Mark the task as joinable, now that it has been wrapped in the proper type.
        system.task_mut(&taskref).set_joinable(true);
        proof {
            assert(system@ =~= with_new_task(old(system)@, task@, taskref));
            assert(!old(system)@.has(taskref)) by {
                if old(system)@.has(taskref) {
                    assert(old(system)@.task_wf(taskref.index()));
                }
            }
            assert forall|i: int| system@.tasks.contains_key(i) implies #[trigger] system@.task_wf(
                i,
            ) by {
                if i != taskref.index() {
                    assert(old(system)@.task_wf(i));
                }
            }
        }
        JoinableTaskRef::wrap(taskref)
    }

    /// Begins to wait until the task has exited or has been killed.
    ///
    /// Returns an error if a task waits for itself, or if interrupts are disabled, because then the
    /// waiting would never end. Otherwise the caller takes steps until the task is joined.
    pub fn join(&self, cpu: &Cpu, interrupts_enabled: bool) -> (result: Result<
        JoinPhase,
        &'static str,
    >)
        ensures
            result == join_report(cpu@, *self, interrupts_enabled),
    {
        let current = match get_my_current_task(cpu) {
            Some(r) => r,
            None => {
                return Err(JOIN_WITHOUT_CURRENT_TASK);
            },
        };
        if *self == current {
            return Err(JOIN_OF_CURRENT_TASK);
        }
        if !interrupts_enabled {
            return Err(JOIN_WITHOUT_INTERRUPTS);
        }
        Ok(JoinPhase::AwaitExit)
    }

    /// Takes another look at the task, and returns how far the waiting for its end has come.
    pub fn join_step<P: Platform>(&self, system: &TaskSystem<P>, phase: JoinPhase) -> (next:
        JoinPhase)
        requires
            system@.has(*self),
        ensures
            next == join_next(phase, system@.task(*self)),
    {
        match phase {
            JoinPhase::AwaitExit => if system.task(self).has_exited() {
                JoinPhase::AwaitStop
            } else {
                phase
            },
            JoinPhase::AwaitStop => if system.task(self).is_running() {
                phase
            } else {
                JoinPhase::Joined
            },
            JoinPhase::Joined => phase,
        }
    }

    /// Indicates that the task has successfully run to completion,
    /// and that it has returned the given `exit_value`.
    ///
    /// Returns an error if the task had already exited, whose exit value is not overwritten.
    /// Otherwise the exit status is set, and `remove` is called to remove the task from the runqueue
    /// that it is on, if there are such. The exit is a success even if the removal is not.
    pub fn mark_as_exited<P: Platform, F>(
        &self,
        system: &mut TaskSystem<P>,
        exit_value: P::Payload,
        remove: Option<F>,
    ) -> (result: Result<(), &'static str>)
        where F: FnOnce(&TaskRef, u8) -> Result<(), &'static str>
        requires
            old(system)@.wf(),
            old(system)@.has(*self),
            runqueue_can_be_left(self, old(system)@.task(*self).exit_report(), remove),
        ensures
            result == exit_result(old(system)@.task(*self).exit_report()),
            runqueue_removal_called(self, old(system)@.task(*self).exit_report(), remove),
            final(system)@ == old(system)@.with_task(
                *self,
                old(system)@.task(*self).after_exit(ExitValue::Completed(exit_value)),
            ),
            old(system)@.stays_valid_as(final(system)@),
    {
        self.exit_and_report(system, ExitValue::Completed(exit_value), remove)
    }

    /// Indicates that the task has been cleaned up, e.g. by unwinding, and is ready to be marked
    /// as killed. The task must be the current one: to kill another task, use `kill`.
    ///
    /// Returns an error if it is not the current one, or if the task had already exited,
    /// whose exit value is not overwritten.
    /// Otherwise the exit status is set, and `remove` is called to remove the task from the runqueue
    /// that it is on, if there are such. The exit is a success even if the removal is not.
    pub fn mark_as_killed<P: Platform, F>(
        &self,
        system: &mut TaskSystem<P>,
        cpu: &Cpu,
        reason: KillReason<P::Payload>,
        remove: Option<F>,
    ) -> (result: Result<(), &'static str>)
        where F: FnOnce(&TaskRef, u8) -> Result<(), &'static str>
        requires
            old(system)@.wf(),
            old(system)@.has(*self),
            runqueue_can_be_left(self, killed_report(old(system)@, cpu@, *self), remove),
        ensures
            result == exit_result(killed_report(old(system)@, cpu@, *self)),
            runqueue_removal_called(self, killed_report(old(system)@, cpu@, *self), remove),
            final(system)@ == (if cpu@.current() == Some(*self) {
                old(system)@.with_task(
                    *self,
                    old(system)@.task(*self).after_exit(ExitValue::Killed(reason)),
                )
            } else {
                old(system)@
            }),
            old(system)@.stays_valid_as(final(system)@),
    {
        let current = match get_my_current_task(cpu) {
            Some(r) => r,
            None => {
                return Err(KILLED_WITHOUT_CURRENT_TASK);
            },
        };
        if current == *self {
            self.exit_and_report(system, ExitValue::Killed(reason), remove)
        } else {
            Err(KILLED_OTHER_TASK)
        }
    }

    /// Kills the task without allowing it to run to completion, for the given reason.
    ///
    /// Returns an error if the task had already exited, whose exit value is not overwritten.
    /// Otherwise the exit status is set, and `remove` is called to remove the task from the runqueue
    /// that it is on, if there are such. The exit is a success even if the removal is not.
    pub fn kill<P: Platform, F>(
        &self,
        system: &mut TaskSystem<P>,
        reason: KillReason<P::Payload>,
        remove: Option<F>,
    ) -> (result: Result<(), &'static str>)
        where F: FnOnce(&TaskRef, u8) -> Result<(), &'static str>
        requires
            old(system)@.wf(),
            old(system)@.has(*self),
            runqueue_can_be_left(self, old(system)@.task(*self).exit_report(), remove),
        ensures
            result == exit_result(old(system)@.task(*self).exit_report()),
            runqueue_removal_called(self, old(system)@.task(*self).exit_report(), remove),
            final(system)@ == old(system)@.with_task(
                *self,
                old(system)@.task(*self).after_exit(ExitValue::Killed(reason)),
            ),
            old(system)@.stays_valid_as(final(system)@),
    {
        self.exit_and_report(system, ExitValue::Killed(reason), remove)
    }

    /// Calls `remove` to remove the task from the runqueue that an exit reported,
    /// if there are such, and returns its result.
    /// Returns the error of an exit that failed.
    pub fn leave_runqueue<F>(
        &self,
        exited: Result<Option<u8>, &'static str>,
        remove: Option<F>,
    ) -> (result: Result<(), &'static str>)
        where F: FnOnce(&TaskRef, u8) -> Result<(), &'static str>
        requires
            runqueue_can_be_left(self, exited, remove),
        ensures
            runqueue_left(self, exited, remove, result),
    {
        match exited {
            Err(error) => Err(error),
            Ok(on_runqueue) => match (on_runqueue, remove) {
                (Some(runqueue), Some(f)) => f(self, runqueue),
                _ => Ok(()),
            },
        }
    }

    /// Makes the task exit with the given value, and reports whether the exit status was set.
    fn exit_and_report<P: Platform, F>(
        &self,
        system: &mut TaskSystem<P>,
        val: ExitValue<P::Payload>,
        remove: Option<F>,
    ) -> (result: Result<(), &'static str>)
        where F: FnOnce(&TaskRef, u8) -> Result<(), &'static str>
        requires
            old(system)@.wf(),
            old(system)@.has(*self),
            runqueue_can_be_left(self, old(system)@.task(*self).exit_report(), remove),
        ensures
            result == exit_result(old(system)@.task(*self).exit_report()),
            runqueue_removal_called(self, old(system)@.task(*self).exit_report(), remove),
            final(system)@ == old(system)@.with_task(
                *self,
                old(system)@.task(*self).after_exit(val),
            ),
            old(system)@.stays_valid_as(final(system)@),
    {
        let had_exited = system.task(self).has_exited();
        let result = self.internal_exit(system, val, remove);
        if had_exited {
            result
        } else {
            Ok(())
        }
    }

    /// Makes the task exit with the given value, and removes it from the runqueue that it is on.
    /// Returns an error if the task had already exited, or else the result of the removal.
    fn internal_exit<P: Platform, F>(
        &self,
        system: &mut TaskSystem<P>,
        val: ExitValue<P::Payload>,
        remove: Option<F>,
    ) -> (result: Result<(), &'static str>)
        where F: FnOnce(&TaskRef, u8) -> Result<(), &'static str>
        requires
            old(system)@.wf(),
            old(system)@.has(*self),
            runqueue_can_be_left(self, old(system)@.task(*self).exit_report(), remove),
        ensures
            runqueue_left(self, old(system)@.task(*self).exit_report(), remove, result),
            final(system)@ == old(system)@.with_task(
                *self,
                old(system)@.task(*self).after_exit(val),
            ),
            old(system)@.stays_valid_as(final(system)@),
    {
        proof {
            assert(system@.task_wf(self.index()));
            lemma_with_task_wf(system@, *self, system@.task(*self).after_exit(val));
        }
        let exited = system.task_mut(self).internal_exit(val);
        self.leave_runqueue(exited, remove)
    }

    /// Takes the exit value of the task, if and only if it is in the exited state.
    ///
    /// If it is, then it is reaped afterwards, and is no longer on the task list.
    /// If it is not, nothing is done and `None` is returned.
    pub fn take_exit_value<P: Platform>(&self, system: &mut TaskSystem<P>) -> (value: Option<
        ExitValue<P::Payload>,
    >)
        requires
            old(system)@.wf(),
            old(system)@.has(*self),
        ensures
            value is Some <==> old(system)@.task(*self).runstate == RunState::Exited,
            value == old(system)@.task(*self).reaped_value(),
            final(system)@ == old(system)@.after_reap(*self),
            old(system)@.stays_valid_as(final(system)@),
    {
        proof {
            assert(system@.task_wf(self.index()));
            let reaped = system@.task(*self).after_reap();
            lemma_with_task_wf(system@, *self, reaped);
            lemma_same_tasks_wf(system@.with_task(*self, reaped), system@.after_reap(*self));
        }
        system.reap(self)
    }

    /// Blocks the task. See `Task::block`.
    pub fn block<P: Platform>(&self, system: &mut TaskSystem<P>) -> (result: Result<
        RunState,
        RunState,
    >)
        requires
            old(system)@.wf(),
            old(system)@.has(*self),
        ensures
            result == old(system)@.task(*self).runstate.wakeup_report(),
            final(system)@ == old(system)@.with_task(
                *self,
                old(system)@.task(*self).with_runstate(
                    old(system)@.task(*self).runstate.after_block(),
                ),
            ),
            old(system)@.stays_valid_as(final(system)@),
    {
        proof {
            lemma_with_runstate_wf(
                system@,
                *self,
                system@.task(*self).runstate.after_block(),
            );
        }
        system.task_mut(self).block()
    }

    /// Blocks the task if it is newly spawned and being set up. See `Task::block_initing_task`.
    pub fn block_initing_task<P: Platform>(&self, system: &mut TaskSystem<P>) -> (result: Result<
        RunState,
        RunState,
    >)
        requires
            old(system)@.wf(),
            old(system)@.has(*self),
        ensures
            result == old(system)@.task(*self).runstate.init_report(),
            final(system)@ == old(system)@.with_task(
                *self,
                old(system)@.task(*self).with_runstate(
                    old(system)@.task(*self).runstate.after_init(RunState::Blocked),
                ),
            ),
            old(system)@.stays_valid_as(final(system)@),
    {
        proof {
            lemma_with_runstate_wf(
                system@,
                *self,
                system@.task(*self).runstate.after_init(RunState::Blocked),
            );
        }
        system.task_mut(self).block_initing_task()
    }

    /// Unblocks the task. See `Task::unblock`.
    pub fn unblock<P: Platform>(&self, system: &mut TaskSystem<P>) -> (result: Result<
        RunState,
        RunState,
    >)
        requires
            old(system)@.wf(),
            old(system)@.has(*self),
        ensures
            result == old(system)@.task(*self).runstate.wakeup_report(),
            final(system)@ == old(system)@.with_task(
                *self,
                old(system)@.task(*self).with_runstate(
                    old(system)@.task(*self).runstate.after_unblock(),
                ),
            ),
            old(system)@.stays_valid_as(final(system)@),
    {
        proof {
            lemma_with_runstate_wf(
                system@,
                *self,
                system@.task(*self).runstate.after_unblock(),
            );
        }
        system.task_mut(self).unblock()
    }

    /// Makes the task runnable if it is newly spawned and fully set up.
    /// See `Task::make_inited_task_runnable`.
    pub fn make_inited_task_runnable<P: Platform>(&self, system: &mut TaskSystem<P>) -> (result:
        Result<RunState, RunState>)
        requires
            old(system)@.wf(),
            old(system)@.has(*self),
        ensures
            result == old(system)@.task(*self).runstate.init_report(),
            final(system)@ == old(system)@.with_task(
                *self,
                old(system)@.task(*self).with_runstate(
                    old(system)@.task(*self).runstate.after_init(RunState::Runnable),
                ),
            ),
            old(system)@.stays_valid_as(final(system)@),
    {
        proof {
            lemma_with_runstate_wf(
                system@,
                *self,
                system@.task(*self).runstate.after_init(RunState::Runnable),
            );
        }
        system.task_mut(self).make_inited_task_runnable()
    }

    /// Sets the environment of the task.
    pub fn set_env<P: Platform>(&self, system: &mut TaskSystem<P>, new_env: Arc<P::Environment>)
        requires
            old(system)@.wf(),
            old(system)@.has(*self),
        ensures
            final(system)@ == old(system)@.with_task(
                *self,
                old(system)@.task(*self).with_env(new_env),
            ),
            old(system)@.stays_valid_as(final(system)@),
    {
        proof {
            assert(system@.task_wf(self.index()));
            lemma_with_task_wf(system@, *self, system@.task(*self).with_env(new_env));
        }
        system.task_mut(self).set_env(new_env)
    }

    /// Marks the task as enqueued on the given runqueue.
    pub fn set_on_runqueue<P: Platform>(&self, system: &mut TaskSystem<P>, runqueue: Option<u8>)
        requires
            old(system)@.wf(),
            old(system)@.has(*self),
        ensures
            final(system)@ == old(system)@.with_task(
                *self,
                old(system)@.task(*self).with_runqueue(runqueue),
            ),
            old(system)@.stays_valid_as(final(system)@),
    {
        proof {
            assert(system@.task_wf(self.index()));
            lemma_with_task_wf(system@, *self, system@.task(*self).with_runqueue(runqueue));
        }
        system.task_mut(self).set_on_runqueue(runqueue)
    }
}

impl JoinableTaskRef {
    /// Gives up the joinable reference. This marks the task as not joinable, which means that it
    /// is an orphan, and will be reaped without anyone waiting for it once it has exited.
    pub fn drop<P: Platform>(self, system: &mut TaskSystem<P>)
        requires
            old(system)@.wf(),
            old(system)@.has(self.task()),
        ensures
            final(system)@ == old(system)@.with_task(
                self.task(),
                old(system)@.task(self.task()).with_joinable(false),
            ),
            old(system)@.stays_valid_as(final(system)@),
    {
        let r: TaskRef = *self;
        proof {
            assert(system@.task_wf(r.index()));
            lemma_with_task_wf(system@, r, system@.task(r).with_joinable(false));
        }
        system.task_mut(&r).set_joinable(false)
    }
}

/// A change of the run state of one task keeps the system valid,
/// unless the task comes to be exited or ceases to be.
proof fn lemma_with_runstate_wf<P: Platform>(
    system: SystemView<P>,
    r: TaskRef,
    runstate: RunState,
)
    requires
        system.wf(),
        system.has(r),
        runstate == RunState::Exited <==> system.task(r).runstate == RunState::Exited,
        system.task(r).runstate.steps_to(runstate),
    ensures
        system.stays_valid_as(system.with_task(r, system.task(r).with_runstate(runstate))),
{
    assert(system.task_wf(r.index()));
    lemma_with_task_wf(system, r, system.task(r).with_runstate(runstate));
}

} // verus!
