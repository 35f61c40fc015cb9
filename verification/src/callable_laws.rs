//! Which calls can be made: those on tasks of a valid system, by a core whose registers tell tasks of it,
//! whatever states the tasks are in.
use crate::address::has_virtual_form;
use crate::bootstrap::bootstrap_task;
use crate::current::{
    borrow_current_task, deinit_current_task, get_current_task, get_my_current_task,
    get_my_current_task_id, get_task, init_current_task, set_kill_handler, take_kill_handler,
    with_current_task, CurrentTaskBorrow,
};
use crate::exit::KillReason;
use crate::lifecycle::JoinPhase;
use crate::run_state::RunState;
use crate::system::{Cpu, TaskSystem};
use crate::task::{Platform, SimdExt, Task, TlsDataImage};
use crate::task_ref::{JoinableTaskRef, SharedTaskRef, TaskList, TaskRef};
use std::mem::ManuallyDrop;
use std::sync::Arc;
use vstd::prelude::*;

verus! {

/// A task of a valid system can be blocked, unblocked, brought out of its set-up, and reaped, its settings
/// can be changed, and its joinable reference can be given up, in any state.
pub proof fn law_tasks_can_be_changed<P: Platform>(
    r: TaskRef,
    env: Arc<P::Environment>,
    runqueue: Option<u8>,
    joinable: JoinableTaskRef,
)
    requires
        joinable.task() == r,
    ensures
        forall|system: &mut TaskSystem<P>| (*system)@.wf() && (*system)@.has(r) ==> #[trigger]
            call_requires(TaskRef::block::<P>, (&r, system)),
        forall|system: &mut TaskSystem<P>| (*system)@.wf() && (*system)@.has(r) ==> #[trigger]
            call_requires(TaskRef::unblock::<P>, (&r, system)),
        forall|system: &mut TaskSystem<P>| (*system)@.wf() && (*system)@.has(r) ==> #[trigger]
            call_requires(TaskRef::block_initing_task::<P>, (&r, system)),
        forall|system: &mut TaskSystem<P>| (*system)@.wf() && (*system)@.has(r) ==> #[trigger]
            call_requires(TaskRef::make_inited_task_runnable::<P>, (&r, system)),
        forall|system: &mut TaskSystem<P>| (*system)@.wf() && (*system)@.has(r) ==> #[trigger]
            call_requires(TaskRef::take_exit_value::<P>, (&r, system)),
        forall|system: &mut TaskSystem<P>| (*system)@.wf() && (*system)@.has(r) ==> #[trigger]
            call_requires(TaskRef::set_env::<P>, (&r, system, env)),
        forall|system: &mut TaskSystem<P>| (*system)@.wf() && (*system)@.has(r) ==> #[trigger]
            call_requires(TaskRef::set_on_runqueue::<P>, (&r, system, runqueue)),
        forall|system: &mut TaskSystem<P>| (*system)@.wf() && (*system)@.has(r) ==> #[trigger]
            call_requires(JoinableTaskRef::drop::<P>, (joinable, system)),
        forall|system: &mut TaskSystem<P>| (*system)@.wf() && (*system)@.has(r) ==> #[trigger]
            call_requires(TaskRef::saved_sp::<P>, (&r, system)),
        forall|system: &mut TaskSystem<P>| (*system)@.wf() && (*system)@.has(r) && (
        *system)@.tasks[r.index()].inner.preemption_guard is Some ==> #[trigger]
            call_requires(TaskRef::post_context_switch_action::<P>, (&r, system)),
        forall|system: &mut TaskSystem<P>| (*system)@.wf() && (*system)@.has(r) ==> #[trigger]
            call_requires(TaskSystem::<P>::add_to_task_list, (system, &r)),
{
}

/// A task of a valid system can be asked to exit in any state, with a removal that can be called for any
/// runqueue, or with none.
pub proof fn law_tasks_can_be_ended<
    P: Platform,
    F: FnOnce(&TaskRef, u8) -> Result<(), &'static str>,
>(
    r: TaskRef,
    cpu: Cpu,
    exit_value: P::Payload,
    reason: KillReason<P::Payload>,
    remove: Option<F>,
)
    requires
        remove matches Some(f) ==> forall|runqueue: u8| #[trigger] call_requires(f, (&r, runqueue)),
    ensures
        forall|system: &mut TaskSystem<P>| (*system)@.wf() && (*system)@.has(r) ==> #[trigger]
            call_requires(TaskRef::mark_as_exited::<P, F>, (&r, system, exit_value, remove)),
        forall|system: &mut TaskSystem<P>| (*system)@.wf() && (*system)@.has(r) ==> #[trigger]
            call_requires(TaskRef::mark_as_killed::<P, F>, (&r, system, &cpu, reason, remove)),
        forall|system: &mut TaskSystem<P>| (*system)@.wf() && (*system)@.has(r) ==> #[trigger]
            call_requires(TaskRef::kill::<P, F>, (&r, system, reason, remove)),
        forall|exited: Result<Option<u8>, &'static str>| #[trigger]
            call_requires(TaskRef::leave_runqueue::<F>, (&r, exited, remove)),
{
}

/// A task can be waited for by any core, in any state, and the current task of any core can be told.
pub proof fn law_tasks_can_be_looked_at<P: Platform>(
    r: TaskRef,
    cpu: Cpu,
    interrupts_enabled: bool,
    system: TaskSystem<P>,
    phase: JoinPhase,
    task_id: usize,
)
    ensures
        call_requires(TaskRef::join, (&r, &cpu, interrupts_enabled)),
        call_requires(get_my_current_task, (&cpu,)),
        call_requires(get_task::<P>, (&system, task_id)),
        call_requires(TaskSystem::<P>::has, (&system, &r)),
        call_requires(TaskSystem::<P>::task_list, (&system,)),
        system@.has(r) ==> {
            &&& call_requires(TaskRef::join_step::<P>, (&r, &system, phase))
            &&& call_requires(TaskSystem::<P>::task, (&system, &r))
            &&& call_requires(TaskSystem::<P>::references, (&system, &r))
            &&& call_requires(TaskRef::debug_string::<P>, (&r, &system, true))
            &&& call_requires(TaskRef::debug_string::<P>, (&r, &system, false))
        },
        system@.wf() && system@.cpu_wf(cpu@) ==> {
            &&& call_requires(get_current_task::<P>, (&system, &cpu))
            &&& call_requires(get_my_current_task_id::<P>, (&system, &cpu))
        },
{
}

/// The current task of a core can be set, taken away, borrowed and given a kill handler, and a function can
/// be called with it, if it can be called with any task.
pub proof fn law_current_task_can_be_changed<P: Platform, F: FnOnce(&TaskRef) -> R, R>(
    function: P::KillHandler,
    id: usize,
    task: Option<TaskRef>,
    visitor: F,
    kernel: TaskSystem<P>,
    core: Cpu,
    borrow: CurrentTaskBorrow,
)
    requires
        forall|r: &TaskRef| #[trigger] call_requires(visitor, (r,)),
    ensures
        kernel@.wf() && kernel@.cpu_wf(core@) ==> call_requires(
            with_current_task::<P, F, R>,
            (&kernel, &core, visitor),
        ),
        forall|system: &mut TaskSystem<P>| (*system)@.wf() && (*system)@.cpu_wf(core@) ==> #[trigger]
            call_requires(set_kill_handler::<P>, (system, &core, function)),
        forall|system: &mut TaskSystem<P>| (*system)@.wf() && (*system)@.cpu_wf(core@) ==> #[trigger]
            call_requires(take_kill_handler::<P>, (system, &core)),
        forall|system: &mut TaskSystem<P>, cpu: &mut Cpu|
            (*system)@.wf() && (*system)@.cpu_wf((*cpu)@) && (task is None || (*system)@.has(
                task->0,
            )) ==> #[trigger] call_requires(init_current_task::<P>, (system, cpu, id, task)),
        forall|system: &mut TaskSystem<P>, cpu: &mut Cpu|
            (*system)@.wf() && (*system)@.cpu_wf((*cpu)@) ==> #[trigger] call_requires(
                deinit_current_task::<P>,
                (system, cpu),
            ),
        forall|system: &mut TaskSystem<P>, cpu: &mut Cpu|
            (*system)@.wf() && (*system)@.cpu_wf((*cpu)@) ==> #[trigger] call_requires(
                borrow_current_task::<P>,
                (system, cpu),
            ),
        forall|system: &mut TaskSystem<P>, cpu: &mut Cpu|
            (*system)@.wf() && (*system)@.cpu_wf((*cpu)@) && (match borrow.area() {
                Some(r) => (*system)@.has(r) && (*system)@.tls[r.index()].borrows > 0,
                None => (*cpu)@.boot_tls.borrows > 0,
            }) ==> #[trigger] call_requires(CurrentTaskBorrow::end::<P>, (borrow, system, cpu)),
{
}

/// A core can be switched between any two tasks of a valid system whose TLS areas are at virtual addresses.
pub proof fn law_cores_can_be_switched<P: Platform>(
    prev: TaskRef,
    next: TaskRef,
    apic_id: u8,
    guard: P::PreemptionGuard,
    from: SimdExt,
    to: SimdExt,
)
    ensures
        forall|system: &mut TaskSystem<P>, cpu: &mut Cpu|
            (*system)@.wf() && (*system)@.cpu_wf((*cpu)@) && (*system)@.has(prev) && (
            *system)@.has(next) && has_virtual_form(
                (*system)@.tasks[next.index()].tls_area.pointer_value as u64,
            ) ==> #[trigger] call_requires(
                Task::<P>::task_switch,
                (system, cpu, &prev, next, apic_id, guard),
            ),
        call_requires(crate::switch::ContextSwitchRoutine::between, (from, to)),
        forall|addr: u64| addr < 0x1_0000_0000_0000 || addr >= 0xffff_8000_0000_0000 ==> #[trigger]
            has_virtual_form(addr),
{
}

/// Tasks can be created from any parent, bootstrapped on any core, and made part of a valid system.
pub proof fn law_tasks_can_be_created<
    P: Platform,
    F: FnOnce(usize, &Arc<P::MemoryManagement>) -> Option<P::Stack>,
    G: FnOnce(&Arc<P::CrateNamespace>) -> TlsDataImage<P::TlsData>,
>(
    cpu: Cpu,
    kstack: Option<P::Stack>,
    parent_task: Option<&TaskRef>,
    cleanup: P::FailureCleanupFunction,
    alloc_stack: F,
    tls_image: G,
    apic_id: u8,
    stack: ManuallyDrop<P::Stack>,
    mmi: Arc<P::MemoryManagement>,
    namespace: Option<&Arc<P::CrateNamespace>>,
    env: Arc<P::Environment>,
    task: Task<P>,
)
    requires
        forall|pages: usize, space: &Arc<P::MemoryManagement>| #[trigger]
            call_requires(alloc_stack, (pages, space)),
        forall|space: &Arc<P::CrateNamespace>| #[trigger] call_requires(tls_image, (space,)),
        forall|space: &Arc<P::CrateNamespace>, area: TlsDataImage<P::TlsData>| #[trigger]
            call_ensures(tls_image, (space,), area) ==> has_virtual_form(area.pointer_value as u64),
    ensures
        forall|system: &mut TaskSystem<P>|
            (*system)@.wf() && (*system)@.cpu_wf(cpu@) && (parent_task is None || (*system)@.has(
                *parent_task->0,
            )) ==> #[trigger] call_requires(
                Task::<P>::new::<F, G>,
                (system, &cpu, kstack, parent_task, cleanup, alloc_stack, tls_image),
            ),
        forall|system: &mut TaskSystem<P>, core: &mut Cpu|
            (*system)@.wf() && (*system)@.cpu_wf((*core)@) ==> #[trigger] call_requires(
                bootstrap_task::<P, G>,
                (system, core, apic_id, stack, mmi, namespace, env, cleanup, tls_image),
            ),
        forall|system: &mut TaskSystem<P>|
            (*system)@.wf() && (task@.inner.exit_value is Some <==> task@.runstate
                == RunState::Exited) && task@.inner.drop_after_task_switch is None ==> #[trigger]
            call_requires(TaskRef::new::<P>, (system, task)),
{
}

/// Tasks of a valid system can be shared and asked to be released.
pub proof fn law_tasks_can_be_shared<P: Platform>(
    r: TaskRef,
    cores: Vec<&Cpu>,
    shared: SharedTaskRef,
    kernel: TaskSystem<P>,
)
    ensures
        kernel@.wf() ==> call_requires(TaskSystem::<P>::find_releasable, (&kernel, &cores)),
        forall|system: &mut TaskSystem<P>|
            (*system)@.wf() && (*system)@.has(r) && (*system)@.references[r.index()] < usize::MAX
                ==> #[trigger] call_requires(TaskSystem::<P>::share, (system, &r)),
        forall|system: &mut TaskSystem<P>| (*system)@.wf() && (*system)@.has(r) ==> #[trigger]
            call_requires(TaskSystem::<P>::release, (system, &r, &cores)),
        forall|system: &mut TaskSystem<P>|
            (*system)@.wf() && (*system)@.has(shared.task()) && (
            *system)@.references[shared.task().index()] > 0 ==> #[trigger] call_requires(
                SharedTaskRef::drop::<P>,
                (shared, system, &cores),
            ),
{
}

/// A task by itself can be blocked, unblocked, brought out of its set-up and reaped in any state.
pub proof fn law_loose_tasks_can_be_changed<P: Platform>()
    ensures
        forall|task: &mut Task<P>| #[trigger] call_requires(Task::<P>::block, (task,)),
        forall|task: &mut Task<P>| #[trigger] call_requires(Task::<P>::unblock, (task,)),
        forall|task: &mut Task<P>| #[trigger] call_requires(Task::<P>::block_initing_task, (task,)),
        forall|task: &mut Task<P>| #[trigger]
            call_requires(Task::<P>::make_inited_task_runnable, (task,)),
        forall|task: &mut Task<P>, list: &mut TaskList| #[trigger]
            call_requires(Task::<P>::take_exit_value, (task, list)),
        forall|task: &mut Task<P>| (*task)@.inner.preemption_guard is Some ==> #[trigger]
            call_requires(Task::<P>::post_context_switch_action, (task,)),
{
}

} // verus!
