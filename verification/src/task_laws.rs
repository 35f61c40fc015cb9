//! What holds of every call on a single task, told by what goes into the call and what comes out.
use crate::exit::ExitValue;
use crate::run_state::RunState;
use crate::task::{InnerView, Platform, RestartInfo, SimdExt, Task, TaskInner, TaskView};
use crate::task_ref::TaskList;
use std::sync::Arc;
use vstd::prelude::*;

verus! {

/// Blocking succeeds exactly for a task that is runnable or blocked, and leaves it blocked. A failure
/// leaves it as it was. Either way the run state before is reported, and nothing else is changed.
pub proof fn law_block<P: Platform>()
    ensures
        forall|task: &mut Task<P>, result: Result<RunState, RunState>| #[trigger]
            call_ensures(Task::<P>::block, (task,), result) ==> {
                let before = (*task)@;
                let after = (*final(task))@;
                &&& after == TaskView { runstate: after.runstate, ..before }
                &&& result is Ok <==> before.runstate == RunState::Runnable || before.runstate
                    == RunState::Blocked
                &&& result matches Ok(reported) ==> {
                    &&& reported == before.runstate
                    &&& after.runstate == RunState::Blocked
                }
                &&& result matches Err(reported) ==> {
                    &&& reported == before.runstate
                    &&& after.runstate == before.runstate
                }
            },
{
}

/// Unblocking succeeds exactly for a task that is runnable or blocked, and leaves it runnable. A failure
/// leaves it as it was. Either way the run state before is reported, and nothing else is changed.
pub proof fn law_unblock<P: Platform>()
    ensures
        forall|task: &mut Task<P>, result: Result<RunState, RunState>| #[trigger]
            call_ensures(Task::<P>::unblock, (task,), result) ==> {
                let before = (*task)@;
                let after = (*final(task))@;
                &&& after == TaskView { runstate: after.runstate, ..before }
                &&& result is Ok <==> before.runstate == RunState::Runnable || before.runstate
                    == RunState::Blocked
                &&& result matches Ok(reported) ==> {
                    &&& reported == before.runstate
                    &&& after.runstate == RunState::Runnable
                }
                &&& result matches Err(reported) ==> {
                    &&& reported == before.runstate
                    &&& after.runstate == before.runstate
                }
            },
{
}

/// A task that is being set up can be made blocked, and no other. A failure leaves the task as it was.
/// Either way the run state before is reported, and nothing else is changed.
pub proof fn law_block_initing_task<P: Platform>()
    ensures
        forall|task: &mut Task<P>, result: Result<RunState, RunState>| #[trigger]
            call_ensures(Task::<P>::block_initing_task, (task,), result) ==> {
                let before = (*task)@;
                let after = (*final(task))@;
                &&& after == TaskView { runstate: after.runstate, ..before }
                &&& result is Ok <==> before.runstate == RunState::Initing
                &&& result matches Ok(reported) ==> {
                    &&& reported == before.runstate
                    &&& after.runstate == RunState::Blocked
                }
                &&& result matches Err(reported) ==> {
                    &&& reported == before.runstate
                    &&& after.runstate == before.runstate
                }
            },
{
}

/// A task that is being set up can be made runnable, and no other. A failure leaves the task as it was.
/// Either way the run state before is reported, and nothing else is changed.
pub proof fn law_make_inited_task_runnable<P: Platform>()
    ensures
        forall|task: &mut Task<P>, result: Result<RunState, RunState>| #[trigger]
            call_ensures(Task::<P>::make_inited_task_runnable, (task,), result) ==> {
                let before = (*task)@;
                let after = (*final(task))@;
                &&& after == TaskView { runstate: after.runstate, ..before }
                &&& result is Ok <==> before.runstate == RunState::Initing
                &&& result matches Ok(reported) ==> {
                    &&& reported == before.runstate
                    &&& after.runstate == RunState::Runnable
                }
                &&& result matches Err(reported) ==> {
                    &&& reported == before.runstate
                    &&& after.runstate == before.runstate
                }
            },
{
}

/// The exit value is taken from a task exactly if it is exited: then the task is reaped, it has no exit
/// value any more, and its ID is not on the list. Any other task, and the list, stay as they were.
pub proof fn law_take_exit_value<P: Platform>()
    ensures
        forall|task: &mut Task<P>, list: &mut TaskList, value: Option<ExitValue<P::Payload>>|
         #[trigger]
            call_ensures(Task::<P>::take_exit_value, (task, list), value) ==> {
                let before = (*task)@;
                let after = (*final(task))@;
                if before.runstate == RunState::Exited {
                    &&& value == before.inner.exit_value
                    &&& after.runstate == RunState::Reaped
                    &&& after.inner.exit_value is None
                    &&& after == TaskView {
                        runstate: after.runstate,
                        inner: InnerView { exit_value: after.inner.exit_value, ..before.inner },
                        ..before
                    }
                    &&& (*final(list))@ == (*list)@.remove(before.id)
                } else {
                    &&& value is None
                    &&& after == before
                    &&& (*final(list))@ == (*list)@
                }
            },
{
}

/// After a context switch, the task gives out the guard that was left with it, once,
/// and drops what was left with it to be dropped. Nothing else is changed.
pub proof fn law_post_context_switch_action<P: Platform>()
    ensures
        forall|task: &mut Task<P>, guard: P::PreemptionGuard| #[trigger]
            call_ensures(Task::<P>::post_context_switch_action, (task,), guard) ==> {
                let before = (*task)@;
                let after = (*final(task))@;
                &&& before.inner.preemption_guard == Some(guard)
                &&& after.inner.preemption_guard is None
                &&& after.inner.drop_after_task_switch is None
                &&& after == TaskView {
                    inner: InnerView {
                        preemption_guard: after.inner.preemption_guard,
                        drop_after_task_switch: after.inner.drop_after_task_switch,
                        ..before.inner
                    },
                    ..before
                }
            },
{
}

/// Setting a part of a task sets this part, and nothing else.
pub proof fn law_setters<P: Platform>(
    env: Arc<P::Environment>,
    mmi: Arc<P::MemoryManagement>,
    namespace: Arc<P::CrateNamespace>,
    app_crate: Option<Arc<P::AppCrate>>,
    failure_cleanup_function: P::FailureCleanupFunction,
    on_runqueue: Option<u8>,
    name: String,
    is_an_idle_task: bool,
    simd: SimdExt,
)
    ensures
        forall|it: &mut Task<P>| #[trigger]
            call_ensures(Task::<P>::set_env, (it, env), ()) ==> (*final(it))@ == (TaskView {
                inner: InnerView { env, ..(*it)@.inner },
                ..(*it)@
            }),
        forall|it: &mut Task<P>| #[trigger]
            call_ensures(Task::<P>::set_on_runqueue, (it, on_runqueue), ()) ==> (*final(it))@ == (TaskView { on_runqueue, ..(*it)@ }),
        forall|it: &mut Task<P>| #[trigger]
            call_ensures(Task::<P>::set_name, (it, name), ()) ==> (*final(it))@ == (TaskView { name: name@, ..(*it)@ }),
        forall|it: &mut Task<P>| #[trigger]
            call_ensures(Task::<P>::set_mmi, (it, mmi), ()) ==> (*final(it))@ == (TaskView { mmi, ..(*it)@ }),
        forall|it: &mut Task<P>| #[trigger]
            call_ensures(Task::<P>::set_namespace, (it, namespace), ()) ==> (*final(it))@ == (TaskView { namespace, ..(*it)@ }),
        forall|it: &mut Task<P>| #[trigger]
            call_ensures(Task::<P>::set_app_crate, (it, app_crate), ()) ==> (*final(it))@ == (TaskView { app_crate, ..(*it)@ }),
        forall|it: &mut Task<P>| #[trigger]
            call_ensures(Task::<P>::set_idle, (it, is_an_idle_task), ()) ==> (*final(it))@ == (TaskView { is_an_idle_task, ..(*it)@ }),
        forall|it: &mut Task<P>| #[trigger]
            call_ensures(Task::<P>::set_simd, (it, simd), ()) ==> (*final(it))@ == (TaskView { simd, ..(*it)@ }),
        forall|it: &mut Task<P>| #[trigger]
            call_ensures(Task::<P>::set_failure_cleanup_function, (it, failure_cleanup_function), ()) ==> (*final(it))@ == (TaskView { failure_cleanup_function, ..(*it)@ }),
{
}

/// Setting an inner part of a task sets this part, and nothing else.
pub proof fn law_inner_setters<P: Platform>(
    saved_sp: usize,
    kstack: P::Stack,
    pinned_core: Option<u8>,
    restart_info: Option<RestartInfo<P::Payload>>,
)
    ensures
        forall|task: &mut Task<P>, inner: &mut TaskInner<P>| #[trigger]
            call_ensures(Task::<P>::inner_mut, (task,), inner) ==> {
                &&& (*inner)@ == (*task)@.inner
                &&& (*final(task))@ == TaskView { inner: (*final(inner))@, ..(*task)@ }
            },
        forall|it: &mut TaskInner<P>| #[trigger]
            call_ensures(TaskInner::<P>::set_saved_sp, (it, saved_sp), ()) ==> (*final(it))@ == (InnerView { saved_sp, ..(*it)@ }),
        forall|it: &mut TaskInner<P>| #[trigger]
            call_ensures(TaskInner::<P>::set_kstack, (it, kstack), ()) ==> (*final(it))@ == (InnerView { kstack, ..(*it)@ }),
        forall|it: &mut TaskInner<P>| #[trigger]
            call_ensures(TaskInner::<P>::set_pinned_core, (it, pinned_core), ()) ==> (*final(it))@ == (InnerView { pinned_core, ..(*it)@ }),
        forall|it: &mut TaskInner<P>| #[trigger]
            call_ensures(TaskInner::<P>::set_restart_info, (it, restart_info), ()) ==> (*final(it))@ == (InnerView { restart_info, ..(*it)@ }),
{
}

/// What is told of a task is what it holds.
pub proof fn law_getters<P: Platform>(task: Task<P>, inner: TaskInner<P>)
    ensures
        forall|result: usize| #[trigger]
            call_ensures(Task::<P>::task_id, (&task,), result) ==> result == task@.id,
        forall|result: &String| #[trigger]
            call_ensures(Task::<P>::get_name, (&task,), result) ==> result@ == task@.name,
        forall|result: Arc<P::Environment>| #[trigger]
            call_ensures(Task::<P>::get_env, (&task,), result) ==> result == task@.inner.env,
        forall|result: Option<u8>| #[trigger]
            call_ensures(Task::<P>::running_on_cpu, (&task,), result) ==> result == task@.running_on_cpu,
        forall|result: bool| #[trigger]
            call_ensures(Task::<P>::is_running, (&task,), result) ==> (result <==> task@.running_on_cpu is Some),
        forall|result: bool| #[trigger]
            call_ensures(Task::<P>::is_joinable, (&task,), result) ==> result == task@.joinable,
        forall|result: Option<u8>| #[trigger]
            call_ensures(Task::<P>::pinned_core, (&task,), result) ==> result == task@.inner.pinned_core,
        forall|result: RunState| #[trigger]
            call_ensures(Task::<P>::runstate, (&task,), result) ==> result == task@.runstate,
        forall|result: bool| #[trigger]
            call_ensures(Task::<P>::is_runnable, (&task,), result) ==> (result <==> task@.runstate == RunState::Runnable),
        forall|result: bool| #[trigger]
            call_ensures(Task::<P>::has_exited, (&task,), result) ==> (result <==> task@.runstate
                == RunState::Exited || task@.runstate == RunState::Reaped),
        forall|result: &Arc<P::CrateNamespace>| #[trigger]
            call_ensures(Task::<P>::get_namespace, (&task,), result) ==> *result == task@.namespace,
        forall|result: bool| #[trigger]
            call_ensures(Task::<P>::is_application, (&task,), result) ==> (result <==> task@.app_crate is Some),
        forall|result: bool| #[trigger]
            call_ensures(Task::<P>::is_userspace, (&task,), result) ==> !result,
        forall|result: bool| #[trigger]
            call_ensures(Task::<P>::is_restartable, (&task,), result) ==> (result <==> task@.inner.restart_info is Some),
        forall|result: Option<u8>| #[trigger]
            call_ensures(Task::<P>::on_runqueue, (&task,), result) ==> result == task@.on_runqueue,
        forall|result: bool| #[trigger]
            call_ensures(Task::<P>::has_kill_handler, (&task,), result) ==> (result <==> task@.inner.kill_handler is Some),
        forall|result: bool| #[trigger]
            call_ensures(Task::<P>::is_idle, (&task,), result) ==> result == task@.is_an_idle_task,
        forall|result: &P::FailureCleanupFunction| #[trigger]
            call_ensures(Task::<P>::get_failure_cleanup_function, (&task,), result) ==> *result == task@.failure_cleanup_function,
        forall|result: Arc<P::MemoryManagement>| #[trigger]
            call_ensures(Task::<P>::shared_mmi, (&task,), result) ==> result == task@.mmi,
        forall|result: Option<Arc<P::AppCrate>>| #[trigger]
            call_ensures(Task::<P>::shared_app_crate, (&task,), result) ==> result == task@.app_crate,
        forall|result: SimdExt| #[trigger]
            call_ensures(Task::<P>::simd_level, (&task,), result) ==> result == task@.simd,
        forall|result: usize| #[trigger]
            call_ensures(Task::<P>::tls_pointer_value, (&task,), result) ==> result == task@.tls_area.pointer_value,
        forall|result: usize| #[trigger]
            call_ensures(TaskInner::<P>::get_saved_sp, (&inner,), result) ==> result == inner@.saved_sp,
        forall|result: &P::Stack| #[trigger]
            call_ensures(TaskInner::<P>::get_kstack, (&inner,), result) ==> *result == inner@.kstack,
        forall|result: Option<u8>| #[trigger]
            call_ensures(TaskInner::<P>::get_pinned_core, (&inner,), result) ==> result == inner@.pinned_core,
        forall|result: &Option<RestartInfo<P::Payload>>| #[trigger]
            call_ensures(TaskInner::<P>::get_restart_info, (&inner,), result) ==> *result == inner@.restart_info,
{
}

/// A function that is given access to the stack, or to what restarts a task, is called for exactly that,
/// and its result is the result.
pub proof fn law_access<
    P: Platform,
    R,
    F: FnOnce(&P::Stack) -> R,
    G: FnOnce(Option<&RestartInfo<P::Payload>>) -> R,
>(task: Task<P>, func: F, restart: G)
    ensures
        forall|result: R| #[trigger]
            call_ensures(Task::<P>::with_kstack::<R, F>, (&task, func), result) ==> call_ensures(
                func,
                (&task@.inner.kstack,),
                result,
            ),
        forall|result: R| #[trigger]
            call_ensures(Task::<P>::with_restart_info::<R, G>, (&task, restart), result) ==> (
            match task@.inner.restart_info {
                Some(info) => call_ensures(restart, (Some(&info),), result),
                None => call_ensures(restart, (None::<&RestartInfo<P::Payload>>,), result),
            }),
{
}

/// Blocking a task and then unblocking it, after both succeeded, makes it runnable again. A task that was
/// runnable is then as it was before, and so is a blocked one after it was unblocked and blocked.
pub proof fn law_block_then_unblock<P: Platform>()
    ensures
        forall|
            task: &mut Task<P>,
            again: &mut Task<P>,
            first: Result<RunState, RunState>,
            second: Result<RunState, RunState>,
        |
            #![trigger call_ensures(Task::<P>::block, (task,), first), call_ensures(Task::<P>::unblock, (again,), second)]
            call_ensures(Task::<P>::block, (task,), first) && call_ensures(
                Task::<P>::unblock,
                (again,),
                second,
            ) && *again == *final(task) ==> {
                &&& first is Ok <==> second is Ok
                &&& (*task)@.runstate == RunState::Runnable ==> (*final(again))@ == (*task)@
            },
        forall|
            task: &mut Task<P>,
            again: &mut Task<P>,
            first: Result<RunState, RunState>,
            second: Result<RunState, RunState>,
        |
            #![trigger call_ensures(Task::<P>::unblock, (task,), first), call_ensures(Task::<P>::block, (again,), second)]
            call_ensures(Task::<P>::unblock, (task,), first) && call_ensures(
                Task::<P>::block,
                (again,),
                second,
            ) && *again == *final(task) ==> {
                &&& first is Ok <==> second is Ok
                &&& (*task)@.runstate == RunState::Blocked ==> (*final(again))@ == (*task)@
            },
{
}

} // verus!
