//! What holds of every call that creates, changes or ends a task of a system, or that waits for its
//! end, told by what goes into the call and what comes out.
use crate::exit::{ExitValue, KillReason};
use crate::lifecycle::{
    JoinPhase, JOIN_OF_CURRENT_TASK, JOIN_WITHOUT_CURRENT_TASK, JOIN_WITHOUT_INTERRUPTS,
    KILLED_OTHER_TASK, KILLED_WITHOUT_CURRENT_TASK, NO_KERNEL_STACK, NO_PARENT_TASK,
};
use crate::run_state::RunState;
use crate::system::{Cpu, SystemView, TaskSystem};
use crate::task::{
    InnerView, Platform, SimdExt, Task, TaskView, TlsDataImage, ALREADY_EXITED,
};
use crate::task_ref::{JoinableTaskRef, TaskLocalData, TaskRef, TlsVariables};
use crate::text::decimal;
use std::sync::Arc;
use vstd::prelude::*;

verus! {

/// Blocking a task of a system succeeds exactly if it is runnable or blocked, leaves it blocked, and
/// reports its run state before. Nothing else of the system is changed.
pub proof fn law_task_block<P: Platform>(r: TaskRef)
    ensures
        forall|system: &mut TaskSystem<P>, result: Result<RunState, RunState>| #[trigger]
            call_ensures(TaskRef::block::<P>, (&r, system), result) ==> {
                let before = (*system)@;
                let after = (*final(system))@;
                let task = before.tasks[r.index()];
                let changed = after.tasks[r.index()];
                &&& after == SystemView {
                    tasks: before.tasks.insert(r.index(), after.tasks[r.index()]),
                    ..before
                }
                &&& changed == TaskView { runstate: changed.runstate, ..task }
                &&& result is Ok <==> task.runstate == RunState::Runnable || task.runstate
                    == RunState::Blocked
                &&& result matches Ok(reported) ==> reported == task.runstate && changed.runstate
                    == RunState::Blocked
                &&& result matches Err(reported) ==> reported == task.runstate && changed.runstate
                    == task.runstate
            },
{
}

/// Unblocking a task of a system succeeds exactly if it is runnable or blocked, leaves it runnable, and
/// reports its run state before. Nothing else of the system is changed.
pub proof fn law_task_unblock<P: Platform>(r: TaskRef)
    ensures
        forall|system: &mut TaskSystem<P>, result: Result<RunState, RunState>| #[trigger]
            call_ensures(TaskRef::unblock::<P>, (&r, system), result) ==> {
                let before = (*system)@;
                let after = (*final(system))@;
                let task = before.tasks[r.index()];
                let changed = after.tasks[r.index()];
                &&& after == SystemView {
                    tasks: before.tasks.insert(r.index(), after.tasks[r.index()]),
                    ..before
                }
                &&& changed == TaskView { runstate: changed.runstate, ..task }
                &&& result is Ok <==> task.runstate == RunState::Runnable || task.runstate
                    == RunState::Blocked
                &&& result matches Ok(reported) ==> reported == task.runstate && changed.runstate
                    == RunState::Runnable
                &&& result matches Err(reported) ==> reported == task.runstate && changed.runstate
                    == task.runstate
            },
{
}

/// A task of a system can be made blocked as the end of its set-up exactly while it is being set up.
/// Nothing else of the system is changed.
pub proof fn law_task_block_initing_task<P: Platform>(r: TaskRef)
    ensures
        forall|system: &mut TaskSystem<P>, result: Result<RunState, RunState>| #[trigger]
            call_ensures(TaskRef::block_initing_task::<P>, (&r, system), result) ==> {
                let before = (*system)@;
                let after = (*final(system))@;
                let task = before.tasks[r.index()];
                let changed = after.tasks[r.index()];
                &&& after == SystemView {
                    tasks: before.tasks.insert(r.index(), after.tasks[r.index()]),
                    ..before
                }
                &&& changed == TaskView { runstate: changed.runstate, ..task }
                &&& result is Ok <==> task.runstate == RunState::Initing
                &&& result matches Ok(reported) ==> reported == task.runstate && changed.runstate
                    == RunState::Blocked
                &&& result matches Err(reported) ==> reported == task.runstate && changed.runstate
                    == task.runstate
            },
{
}

/// A task of a system can be made runnable as the end of its set-up exactly while it is being set up.
/// Nothing else of the system is changed.
pub proof fn law_task_make_inited_task_runnable<P: Platform>(r: TaskRef)
    ensures
        forall|system: &mut TaskSystem<P>, result: Result<RunState, RunState>| #[trigger]
            call_ensures(TaskRef::make_inited_task_runnable::<P>, (&r, system), result) ==> {
                let before = (*system)@;
                let after = (*final(system))@;
                let task = before.tasks[r.index()];
                let changed = after.tasks[r.index()];
                &&& after == SystemView {
                    tasks: before.tasks.insert(r.index(), after.tasks[r.index()]),
                    ..before
                }
                &&& changed == TaskView { runstate: changed.runstate, ..task }
                &&& result is Ok <==> task.runstate == RunState::Initing
                &&& result matches Ok(reported) ==> reported == task.runstate && changed.runstate
                    == RunState::Runnable
                &&& result matches Err(reported) ==> reported == task.runstate && changed.runstate
                    == task.runstate
            },
{
}

/// Setting the environment or the runqueue of a task of a system changes nothing else,
/// and giving up its joinable reference makes it an orphan and changes nothing else.
pub proof fn law_task_settings<P: Platform>(
    r: TaskRef,
    env: Arc<P::Environment>,
    runqueue: Option<u8>,
    joinable: JoinableTaskRef,
)
    ensures
        forall|system: &mut TaskSystem<P>| #[trigger]
            call_ensures(TaskRef::set_env::<P>, (&r, system, env), ()) ==> {
                let before = (*system)@;
                let after = (*final(system))@;
                let task = before.tasks[r.index()];
                &&& after == SystemView {
                    tasks: before.tasks.insert(r.index(), after.tasks[r.index()]),
                    ..before
                }
                &&& after.tasks[r.index()] == TaskView {
                    inner: InnerView { env, ..task.inner },
                    ..task
                }
            },
        forall|system: &mut TaskSystem<P>| #[trigger]
            call_ensures(TaskRef::set_on_runqueue::<P>, (&r, system, runqueue), ()) ==> {
                let before = (*system)@;
                let after = (*final(system))@;
                let task = before.tasks[r.index()];
                &&& after == SystemView {
                    tasks: before.tasks.insert(r.index(), after.tasks[r.index()]),
                    ..before
                }
                &&& after.tasks[r.index()] == TaskView { on_runqueue: runqueue, ..task }
            },
        forall|system: &mut TaskSystem<P>| #[trigger]
            call_ensures(JoinableTaskRef::drop::<P>, (joinable, system), ()) ==> {
                let before = (*system)@;
                let after = (*final(system))@;
                let i = joinable.task().index();
                &&& after == SystemView {
                    tasks: before.tasks.insert(i, after.tasks[i]),
                    ..before
                }
                &&& after.tasks[i] == TaskView { joinable: false, ..before.tasks[i] }
            },
{
}

/// The exit value is taken from a task of a system exactly if it is exited. Then it is reaped, and is
/// not found by its ID any more. Otherwise nothing is changed.
pub proof fn law_task_take_exit_value<P: Platform>(r: TaskRef)
    ensures
        forall|system: &mut TaskSystem<P>, value: Option<ExitValue<P::Payload>>| #[trigger]
            call_ensures(TaskRef::take_exit_value::<P>, (&r, system), value)
                && (*system)@.tasks.contains_key(r.index()) ==> {
                let before = (*system)@;
                let after = (*final(system))@;
                let task = before.tasks[r.index()];
                &&& value is Some <==> task.runstate == RunState::Exited
                &&& value is Some ==> {
                    &&& value == task.inner.exit_value
                    &&& after == SystemView {
                        tasks: before.tasks.insert(
                            r.index(),
                            TaskView {
                                runstate: RunState::Reaped,
                                inner: InnerView { exit_value: None, ..task.inner },
                                ..task
                            },
                        ),
                        task_list: before.task_list.remove(task.id),
                        ..before
                    }
                }
                &&& value is None ==> after == before
            },
{
    assert forall|system: &mut TaskSystem<P>, value: Option<ExitValue<P::Payload>>| #[trigger]
        call_ensures(TaskRef::take_exit_value::<P>, (&r, system), value)
            && (*system)@.tasks.contains_key(r.index()) && value is None implies (*final(system))@
        == (*system)@ by {
        assert((*final(system))@.tasks =~= (*system)@.tasks);
    }
}

/// Marking a task as exited succeeds exactly if it is not over yet. Then it is exited with the given
/// value, it keeps its local data exactly if it runs on a core, and it is removed from its runqueue.
/// Everything else of it stays as it was, and so does the core that it runs on, until a task switch
/// takes it off. A failure changes nothing.
pub proof fn law_mark_as_exited<P: Platform, F: FnOnce(&TaskRef, u8) -> Result<(), &'static str>>(
    r: TaskRef,
    exit_value: P::Payload,
    remove: Option<F>,
)
    ensures
        forall|system: &mut TaskSystem<P>, result: Result<(), &'static str>| #[trigger]
            call_ensures(TaskRef::mark_as_exited::<P, F>, (&r, system, exit_value, remove), result)
                && (*system)@.tasks.contains_key(r.index()) ==> {
                let before = (*system)@;
                let after = (*final(system))@;
                let task = before.tasks[r.index()];
                let changed = after.tasks[r.index()];
                let owed = true;
                let over = task.runstate == RunState::Exited || task.runstate
                    == RunState::Reaped;
                &&& result is Ok <==> owed && !over
                &&& owed && over ==> result == Err::<(), &'static str>(ALREADY_EXITED)
                &&& result is Err ==> after == before
                &&& result is Ok ==> {
                    &&& after == SystemView {
                        tasks: before.tasks.insert(r.index(), changed),
                        ..before
                    }
                    &&& changed.runstate == RunState::Exited
                    &&& changed.inner.exit_value == Some(ExitValue::Completed(exit_value))
                    &&& changed.inner.task_local_data == (if task.running_on_cpu is Some {
                        task.inner.task_local_data
                    } else {
                        None
                    })
                    &&& changed == TaskView {
                        runstate: changed.runstate,
                        inner: InnerView {
                            exit_value: changed.inner.exit_value,
                            task_local_data: changed.inner.task_local_data,
                            ..task.inner
                        },
                        ..task
                    }
                    &&& task.on_runqueue matches Some(runqueue) ==> (remove matches Some(f)
                        ==> exists|left: Result<(), &'static str>| #[trigger]
                        call_ensures(f, (&r, runqueue), left))
                }
            },
{
    assert forall|system: &mut TaskSystem<P>, result: Result<(), &'static str>| #[trigger]
        call_ensures(TaskRef::mark_as_exited::<P, F>, (&r, system, exit_value, remove), result)
            && (*system)@.tasks.contains_key(r.index()) && result is Err implies (*final(system))@
        == (*system)@ by {
        assert((*final(system))@.tasks =~= (*system)@.tasks);
    }
}

/// Killing a task succeeds exactly if it is not over yet. Then it is exited for the given reason, it
/// keeps its local data exactly if it runs on a core, and it is removed from its runqueue.
/// Everything else of it stays as it was, and so does the core that it runs on, until a task switch
/// takes it off. A failure changes nothing.
pub proof fn law_kill<P: Platform, F: FnOnce(&TaskRef, u8) -> Result<(), &'static str>>(
    r: TaskRef,
    reason: KillReason<P::Payload>,
    remove: Option<F>,
)
    ensures
        forall|system: &mut TaskSystem<P>, result: Result<(), &'static str>| #[trigger]
            call_ensures(TaskRef::kill::<P, F>, (&r, system, reason, remove), result)
                && (*system)@.tasks.contains_key(r.index()) ==> {
                let before = (*system)@;
                let after = (*final(system))@;
                let task = before.tasks[r.index()];
                let changed = after.tasks[r.index()];
                let owed = true;
                let over = task.runstate == RunState::Exited || task.runstate
                    == RunState::Reaped;
                &&& result is Ok <==> owed && !over
                &&& owed && over ==> result == Err::<(), &'static str>(ALREADY_EXITED)
                &&& result is Err ==> after == before
                &&& result is Ok ==> {
                    &&& after == SystemView {
                        tasks: before.tasks.insert(r.index(), changed),
                        ..before
                    }
                    &&& changed.runstate == RunState::Exited
                    &&& changed.inner.exit_value == Some(ExitValue::<P::Payload>::Killed(reason))
                    &&& changed.inner.task_local_data == (if task.running_on_cpu is Some {
                        task.inner.task_local_data
                    } else {
                        None
                    })
                    &&& changed == TaskView {
                        runstate: changed.runstate,
                        inner: InnerView {
                            exit_value: changed.inner.exit_value,
                            task_local_data: changed.inner.task_local_data,
                            ..task.inner
                        },
                        ..task
                    }
                    &&& task.on_runqueue matches Some(runqueue) ==> (remove matches Some(f)
                        ==> exists|left: Result<(), &'static str>| #[trigger]
                        call_ensures(f, (&r, runqueue), left))
                }
            },
{
    assert forall|system: &mut TaskSystem<P>, result: Result<(), &'static str>| #[trigger]
        call_ensures(TaskRef::kill::<P, F>, (&r, system, reason, remove), result)
            && (*system)@.tasks.contains_key(r.index()) && result is Err implies (*final(system))@
        == (*system)@ by {
        assert((*final(system))@.tasks =~= (*system)@.tasks);
    }
}

/// Marking a task as killed succeeds exactly if the register of the core tells it as the current task
/// and it is not over yet. Then it is exited for the given reason, and everything else of it, and
/// the core that it runs on, stays as it was. A failure changes nothing.
pub proof fn law_mark_as_killed<P: Platform, F: FnOnce(&TaskRef, u8) -> Result<(), &'static str>>(
    r: TaskRef,
    cpu: Cpu,
    reason: KillReason<P::Payload>,
    remove: Option<F>,
)
    ensures
        forall|system: &mut TaskSystem<P>, result: Result<(), &'static str>| #[trigger]
            call_ensures(TaskRef::mark_as_killed::<P, F>, (&r, system, &cpu, reason, remove), result)
                && (*system)@.tasks.contains_key(r.index()) ==> {
                let before = (*system)@;
                let after = (*final(system))@;
                let task = before.tasks[r.index()];
                let changed = after.tasks[r.index()];
                let owed = cpu@.gs_base matches Some(data) && data.taskref == r;
                let over = task.runstate == RunState::Exited || task.runstate
                    == RunState::Reaped;
                &&& result is Ok <==> owed && !over
                &&& cpu@.gs_base is None ==> result == Err::<(), &'static str>(
                    KILLED_WITHOUT_CURRENT_TASK,
                )
                &&& cpu@.gs_base is Some && !owed ==> result == Err::<(), &'static str>(
                    KILLED_OTHER_TASK,
                )
                &&& owed && over ==> result == Err::<(), &'static str>(ALREADY_EXITED)
                &&& result is Err ==> after == before
                &&& result is Ok ==> {
                    &&& after == SystemView {
                        tasks: before.tasks.insert(r.index(), changed),
                        ..before
                    }
                    &&& changed.runstate == RunState::Exited
                    &&& changed.inner.exit_value == Some(ExitValue::<P::Payload>::Killed(reason))
                    &&& changed.inner.task_local_data == (if task.running_on_cpu is Some {
                        task.inner.task_local_data
                    } else {
                        None
                    })
                    &&& changed == TaskView {
                        runstate: changed.runstate,
                        inner: InnerView {
                            exit_value: changed.inner.exit_value,
                            task_local_data: changed.inner.task_local_data,
                            ..task.inner
                        },
                        ..task
                    }
                    &&& task.on_runqueue matches Some(runqueue) ==> (remove matches Some(f)
                        ==> exists|left: Result<(), &'static str>| #[trigger]
                        call_ensures(f, (&r, runqueue), left))
                }
            },
{
    assert forall|system: &mut TaskSystem<P>, result: Result<(), &'static str>| #[trigger]
        call_ensures(TaskRef::mark_as_killed::<P, F>, (&r, system, &cpu, reason, remove), result)
            && (*system)@.tasks.contains_key(r.index()) && result is Err implies (*final(system))@
        == (*system)@ by {
        assert((*final(system))@.tasks =~= (*system)@.tasks);
    }
}

/// Whoever leaves a runqueue after an exit gets the error of an exit that failed, or else the result of
/// the removal from the runqueue, if there is one to be left.
pub proof fn law_leave_runqueue<F: FnOnce(&TaskRef, u8) -> Result<(), &'static str>>(
    r: TaskRef,
    exited: Result<Option<u8>, &'static str>,
    remove: Option<F>,
    result: Result<(), &'static str>,
)
    requires
        call_ensures(TaskRef::leave_runqueue::<F>, (&r, exited, remove), result),
    ensures
        exited matches Err(error) ==> result == Err::<(), &'static str>(error),
        exited matches Ok(Some(runqueue)) ==> (remove matches Some(f) ==> call_ensures(
            f,
            (&r, runqueue),
            result,
        )),
        exited is Ok && (exited->Ok_0 is None || remove is None) ==> result is Ok,
{
}

/// Two exits of one task: the first one that is asked for counts. A later one fails and changes nothing,
/// and the exit value that is taken is that of the first.
pub proof fn law_first_exit_counts<P: Platform, F: FnOnce(&TaskRef, u8) -> Result<(), &'static str>>(
    r: TaskRef,
    exit_value: P::Payload,
    reason: KillReason<P::Payload>,
    remove: Option<F>,
)
    ensures
        forall|
            first: &mut TaskSystem<P>,
            second: &mut TaskSystem<P>,
            third: &mut TaskSystem<P>,
            exited: Result<(), &'static str>,
            killed: Result<(), &'static str>,
            value: Option<ExitValue<P::Payload>>,
        |
            #![trigger call_ensures(TaskRef::mark_as_exited::<P, F>, (&r, first, exit_value, remove), exited), call_ensures(TaskRef::kill::<P, F>, (&r, second, reason, remove), killed), call_ensures(TaskRef::take_exit_value::<P>, (&r, third), value)]
            call_ensures(
                TaskRef::mark_as_exited::<P, F>,
                (&r, first, exit_value, remove),
                exited,
            ) && call_ensures(TaskRef::kill::<P, F>, (&r, second, reason, remove), killed)
                && call_ensures(TaskRef::take_exit_value::<P>, (&r, third), value)
                && (*first)@.tasks.contains_key(r.index()) && exited is Ok
                && *second == *final(first) && *third == *final(second) ==> {
                &&& killed is Err
                &&& value == Some(ExitValue::<P::Payload>::Completed(exit_value))
            },
{
    assert forall|
        first: &mut TaskSystem<P>,
        second: &mut TaskSystem<P>,
        third: &mut TaskSystem<P>,
        exited: Result<(), &'static str>,
        killed: Result<(), &'static str>,
        value: Option<ExitValue<P::Payload>>,
    |
        #![trigger call_ensures(TaskRef::mark_as_exited::<P, F>, (&r, first, exit_value, remove), exited), call_ensures(TaskRef::kill::<P, F>, (&r, second, reason, remove), killed), call_ensures(TaskRef::take_exit_value::<P>, (&r, third), value)]
        call_ensures(TaskRef::mark_as_exited::<P, F>, (&r, first, exit_value, remove), exited)
            && call_ensures(TaskRef::kill::<P, F>, (&r, second, reason, remove), killed)
            && call_ensures(TaskRef::take_exit_value::<P>, (&r, third), value)
            && (*first)@.tasks.contains_key(r.index()) && exited is Ok && *second == *final(first)
            && *third == *final(second) implies {
        &&& killed is Err
        &&& value == Some(ExitValue::<P::Payload>::Completed(exit_value))
    } by {
        assert((*final(second))@.tasks[r.index()] == (*second)@.tasks[r.index()]);
    }
}

/// Joining begins exactly if there is a current task, it is another one than the task to be joined, and
/// interrupts are enabled. It does not matter what else the two tasks are. Each error has its cause:
/// that of joining oneself comes exactly if the task is the current one.
pub proof fn law_join(
    r: TaskRef,
    cpu: Cpu,
    interrupts_enabled: bool,
    result: Result<JoinPhase, &'static str>,
)
    requires
        call_ensures(TaskRef::join, (&r, &cpu, interrupts_enabled), result),
    ensures
        cpu@.gs_base is None ==> result == Err::<JoinPhase, &'static str>(
            JOIN_WITHOUT_CURRENT_TASK,
        ),
        cpu@.gs_base matches Some(data) ==> {
            &&& data.taskref == r ==> result == Err::<JoinPhase, &'static str>(
                JOIN_OF_CURRENT_TASK,
            )
            &&& data.taskref != r && !interrupts_enabled ==> result == Err::<
                JoinPhase,
                &'static str,
            >(JOIN_WITHOUT_INTERRUPTS)
            &&& data.taskref != r && interrupts_enabled ==> result == Ok::<
                JoinPhase,
                &'static str,
            >(JoinPhase::AwaitExit)
        },
{
}

/// A look at the task that is waited for ends the first phase exactly if the task is over, and the second
/// exactly if it runs on no core. There is no way back.
pub proof fn law_join_step<P: Platform>(
    r: TaskRef,
    system: TaskSystem<P>,
    phase: JoinPhase,
    next: JoinPhase,
)
    requires
        call_ensures(TaskRef::join_step::<P>, (&r, &system, phase), next),
    ensures
        ({
            let task = system@.tasks[r.index()];
            let over = task.runstate == RunState::Exited || task.runstate == RunState::Reaped;
            &&& phase == JoinPhase::AwaitExit && over ==> next == JoinPhase::AwaitStop
            &&& phase == JoinPhase::AwaitExit && !over ==> next == JoinPhase::AwaitExit
            &&& phase == JoinPhase::AwaitStop && task.running_on_cpu is None ==> next
                == JoinPhase::Joined
            &&& phase == JoinPhase::AwaitStop && task.running_on_cpu is Some ==> next
                == JoinPhase::AwaitStop
            &&& phase == JoinPhase::Joined ==> next == JoinPhase::Joined
        }),
{
}

/// A task that runs on a core and is killed there is not joined before a task switch takes it off:
/// the look after the next one still finds it running.
pub proof fn law_killed_tasks_are_awaited<
    P: Platform,
    F: FnOnce(&TaskRef, u8) -> Result<(), &'static str>,
>(r: TaskRef, reason: KillReason<P::Payload>, remove: Option<F>)
    ensures
        forall|
            system: &mut TaskSystem<P>,
            killed: Result<(), &'static str>,
            first: JoinPhase,
            second: JoinPhase,
        |
            #![trigger call_ensures(TaskRef::kill::<P, F>, (&r, system, reason, remove), killed), call_ensures(TaskRef::join_step::<P>, (&r, &*final(system), JoinPhase::AwaitExit), first), call_ensures(TaskRef::join_step::<P>, (&r, &*final(system), first), second)]
            call_ensures(TaskRef::kill::<P, F>, (&r, system, reason, remove), killed)
                && call_ensures(
                TaskRef::join_step::<P>,
                (&r, &*final(system), JoinPhase::AwaitExit),
                first,
            ) && call_ensures(TaskRef::join_step::<P>, (&r, &*final(system), first), second)
                && (*system)@.tasks.contains_key(r.index()) && killed is Ok ==> (second
                == JoinPhase::Joined <==> (*system)@.tasks[r.index()].running_on_cpu is None),
{
}

/// A new task is created exactly if there is a parent and a stack. The parent is the given one, or else
/// the current task; the stack is the given one, or else an allocated one of the default size. The ID
/// of the new task is the number that the counter had before, whatever its parent is, and the
/// counter goes on to the next number. The new task inherits what tasks share from its parent, and
/// is otherwise blank. Nothing else is changed, and nothing at all where it is not created.
pub proof fn law_new_task<
    P: Platform,
    F: FnOnce(usize, &Arc<P::MemoryManagement>) -> Option<P::Stack>,
    G: FnOnce(&Arc<P::CrateNamespace>) -> TlsDataImage<P::TlsData>,
>(
    cpu: Cpu,
    kstack: Option<P::Stack>,
    parent_task: Option<&TaskRef>,
    cleanup: P::FailureCleanupFunction,
    alloc_stack: F,
    tls_image: G,
)
    ensures
        forall|system: &mut TaskSystem<P>, result: Result<Task<P>, &'static str>| #[trigger]
            call_ensures(
                Task::<P>::new::<F, G>,
                (system, &cpu, kstack, parent_task, cleanup, alloc_stack, tls_image),
                result,
            ) ==> {
                let before = (*system)@;
                let after = (*final(system))@;
                let parent_ref = match parent_task {
                    Some(r) => Some(*r),
                    None => match cpu@.gs_base {
                        Some(data) => Some(data.taskref),
                        None => None,
                    },
                };
                let parent = before.tasks[parent_ref->0.index()];
                &&& parent_ref is None ==> result == Err::<Task<P>, &'static str>(NO_PARENT_TASK)
                &&& parent_ref is Some && kstack is Some ==> result is Ok
                &&& parent_ref is Some && result is Err ==> {
                    &&& kstack is None
                    &&& call_ensures(
                        alloc_stack,
                        (before.kernel_stack_size_in_pages, &parent.mmi),
                        None,
                    )
                    &&& result == Err::<Task<P>, &'static str>(NO_KERNEL_STACK)
                }
                &&& result is Err ==> after == before
                &&& result matches Ok(task) ==> {
                    &&& parent_ref is Some
                    &&& after == SystemView { next_task_id: after.next_task_id, ..before }
                    &&& after.next_task_id == (before.next_task_id + 1) % (usize::MAX + 1)
                    &&& task@.id == before.next_task_id
                    &&& task@.name == "task_"@ + decimal(before.next_task_id as nat)
                    &&& match kstack {
                        Some(stack) => task@.inner.kstack == stack,
                        None => call_ensures(
                            alloc_stack,
                            (before.kernel_stack_size_in_pages, &parent.mmi),
                            Some(task@.inner.kstack),
                        ),
                    }
                    &&& call_ensures(tls_image, (&parent.namespace,), task@.tls_area)
                    &&& task@.inner.env == parent.inner.env
                    &&& task@.mmi == parent.mmi
                    &&& task@.namespace == parent.namespace
                    &&& task@.app_crate == parent.app_crate
                    &&& task@.failure_cleanup_function == cleanup
                    &&& task@.runstate == RunState::Initing
                    &&& task@.running_on_cpu is None
                    &&& task@.on_runqueue is None
                    &&& task@.simd == SimdExt::Regular
                    &&& !task@.joinable
                    &&& !task@.is_an_idle_task
                    &&& task@.inner.exit_value is None
                    &&& task@.inner.saved_sp == 0
                    &&& task@.inner.task_local_data is None
                    &&& task@.inner.preemption_guard is None
                    &&& task@.inner.drop_after_task_switch is None
                    &&& task@.inner.pinned_core is None
                    &&& task@.inner.kill_handler is None
                    &&& task@.inner.restart_info is None
                }
            },
{
    assert forall|n: usize| #[trigger] (n + 1) % (usize::MAX + 1) == (if n == usize::MAX {
        0
    } else {
        n + 1
    }) by {
        lemma_next_number(n);
    }
}

/// The number after the largest one is zero.
proof fn lemma_next_number(n: usize)
    ensures
        (n + 1) % (usize::MAX + 1) == (if n == usize::MAX {
            0
        } else {
            n + 1
        }),
{
    if n == usize::MAX {
        vstd::arithmetic::div_mod::lemma_mod_self_0(usize::MAX + 1);
    } else {
        vstd::arithmetic::div_mod::lemma_small_mod((n + 1) as nat, (usize::MAX + 1) as nat);
    }
}

/// Two tasks that were created have different IDs, as long as the counter did not go once through
/// all numbers in between, whatever their parents are.
pub proof fn law_new_tasks_have_different_ids<
    P: Platform,
    F: FnOnce(usize, &Arc<P::MemoryManagement>) -> Option<P::Stack>,
    G: FnOnce(&Arc<P::CrateNamespace>) -> TlsDataImage<P::TlsData>,
>(
    cpu: Cpu,
    other_cpu: Cpu,
    kstack: Option<P::Stack>,
    other_kstack: Option<P::Stack>,
    parent_task: Option<&TaskRef>,
    other_parent: Option<&TaskRef>,
    cleanup: P::FailureCleanupFunction,
    alloc_stack: F,
    tls_image: G,
    n: nat,
)
    requires
        0 < n <= usize::MAX,
    ensures
        forall|
            first: &mut TaskSystem<P>,
            second: &mut TaskSystem<P>,
            one: Result<Task<P>, &'static str>,
            two: Result<Task<P>, &'static str>,
        |
            #![trigger call_ensures(Task::<P>::new::<F, G>, (first, &cpu, kstack, parent_task, cleanup, alloc_stack, tls_image), one), call_ensures(Task::<P>::new::<F, G>, (second, &other_cpu, other_kstack, other_parent, cleanup, alloc_stack, tls_image), two)]
            call_ensures(
                Task::<P>::new::<F, G>,
                (first, &cpu, kstack, parent_task, cleanup, alloc_stack, tls_image),
                one,
            ) && call_ensures(
                Task::<P>::new::<F, G>,
                (second, &other_cpu, other_kstack, other_parent, cleanup, alloc_stack, tls_image),
                two,
            ) && one is Ok && two is Ok && (*second)@.next_task_id == ((*first)@.next_task_id + n)
                % (usize::MAX + 1) ==> one->Ok_0@.id != two->Ok_0@.id,
{
    assert forall|id: usize| #[trigger] (id + n) % (usize::MAX + 1) != id by {
        let m = usize::MAX + 1;
        let x = id + n;
        if x < m {
            vstd::arithmetic::div_mod::lemma_small_mod(x as nat, m as nat);
        } else {
            vstd::arithmetic::div_mod::lemma_mod_sub_multiples_vanish(x, m);
            vstd::arithmetic::div_mod::lemma_small_mod((x - m) as nat, m as nat);
        }
    }
}

/// A task becomes part of a system under a reference that was not handed out before. It is joinable then,
/// it has local data that refer back to it, and a TLS area that tells no current task. It is
/// otherwise as it was, and so is the system: the task is not put on the task list.
pub proof fn law_new_reference<P: Platform>(task: Task<P>, joinable: JoinableTaskRef)
    ensures
        forall|system: &mut TaskSystem<P>| #[trigger]
            call_ensures(TaskRef::new::<P>, (system, task), joinable) ==> {
                let before = (*system)@;
                let after = (*final(system))@;
                let r = joinable.task();
                &&& r.index() == before.slots
                &&& after.slots == before.slots + 1
                &&& after.tasks == before.tasks.insert(
                    r.index(),
                    TaskView {
                        joinable: true,
                        inner: InnerView {
                            task_local_data: Some(TaskLocalData { taskref: r, task_id: task@.id }),
                            ..task@.inner
                        },
                        ..task@
                    },
                )
                &&& after.tls == before.tls.insert(
                    r.index(),
                    TlsVariables { current_task_id: 0, current_task: None, borrows: 0 },
                )
                &&& after.references == before.references.insert(r.index(), 0)
                &&& after == SystemView {
                    slots: after.slots,
                    tasks: after.tasks,
                    tls: after.tls,
                    references: after.references,
                    ..before
                }
            },
{
}

} // verus!
