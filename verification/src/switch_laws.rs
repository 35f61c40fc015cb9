//! What holds of every call that switches a core to another task, or that bootstraps its first one,
//! told by what goes into the call and what comes out.
use crate::address::sign_extended;
use crate::bootstrap::{bootstrap_task, ID_ALREADY_LISTED, NO_INITIAL_NAMESPACE};
use crate::run_state::RunState;
use crate::switch::{ContextSwitchRoutine, TaskSwitch};
use crate::system::{Cpu, CpuView, SystemView, TaskSystem};
use crate::task::{InnerView, Platform, SimdExt, Task, TaskView, TlsDataImage};
use crate::task_ref::{
    law_equal_references_name_one_task, JoinableTaskRef, TaskLocalData, TaskRef, TlsVariables,
};
use crate::text::decimal;
use std::mem::ManuallyDrop;
use std::sync::Arc;
use vstd::prelude::*;

verus! {

/// A switch between tasks with the same ID does nothing, and gives the guard back.
pub proof fn law_switch_to_the_same_id<P: Platform>(
    prev: TaskRef,
    next: TaskRef,
    apic_id: u8,
    guard: P::PreemptionGuard,
)
    ensures
        forall|system: &mut TaskSystem<P>, cpu: &mut Cpu, switch: TaskSwitch<P::PreemptionGuard>|
         #[trigger]
            call_ensures(
                Task::<P>::task_switch,
                (system, cpu, &prev, next, apic_id, guard),
                switch,
            ) ==> {
                let same = (*system)@.tasks[prev.index()].id == (*system)@.tasks[next.index()].id;
                &&& switch is Unneeded <==> same
                &&& same ==> {
                    &&& switch == TaskSwitch::Unneeded(guard)
                    &&& (*final(system))@ == (*system)@
                    &&& (*final(cpu))@ == (*cpu)@
                }
            },
{
}

/// A task switch changes the next task in three ways: it runs on the core, it holds the guard, and if the
/// previous task is over, it holds the local data of that one. It changes the previous task in two
/// ways: it runs nowhere, and if it is over, it has no local data. Neither run state is changed,
/// no other task is, and nothing of the system but tasks and TLS areas.
pub proof fn law_switch_changes_two_tasks<P: Platform>(
    prev: TaskRef,
    next: TaskRef,
    apic_id: u8,
    guard: P::PreemptionGuard,
)
    ensures
        forall|system: &mut TaskSystem<P>, cpu: &mut Cpu, switch: TaskSwitch<P::PreemptionGuard>|
         #[trigger]
            call_ensures(
                Task::<P>::task_switch,
                (system, cpu, &prev, next, apic_id, guard),
                switch,
            ) && (*system)@.has(prev) && (*system)@.has(next) && (*system)@.tasks[prev.index()].id
                != (*system)@.tasks[next.index()].id ==> {
                let before = (*system)@;
                let after = (*final(system))@;
                let prev_task = before.tasks[prev.index()];
                let next_task = before.tasks[next.index()];
                let left = after.tasks[prev.index()];
                let entered = after.tasks[next.index()];
                let over = prev_task.runstate == RunState::Exited || prev_task.runstate
                    == RunState::Reaped;
                &&& left.runstate == prev_task.runstate
                &&& entered.runstate == next_task.runstate
                &&& entered.running_on_cpu == Some(apic_id)
                &&& entered.inner.preemption_guard == Some(guard)
                &&& over ==> entered.inner.drop_after_task_switch
                    == prev_task.inner.task_local_data
                &&& !over ==> entered.inner.drop_after_task_switch
                    == next_task.inner.drop_after_task_switch
                &&& entered == TaskView {
                    running_on_cpu: entered.running_on_cpu,
                    inner: InnerView {
                        preemption_guard: entered.inner.preemption_guard,
                        drop_after_task_switch: entered.inner.drop_after_task_switch,
                        ..next_task.inner
                    },
                    ..next_task
                }
                &&& left.running_on_cpu is None
                &&& over ==> left.inner.task_local_data is None
                &&& !over ==> left.inner.task_local_data == prev_task.inner.task_local_data
                &&& left == TaskView {
                    running_on_cpu: left.running_on_cpu,
                    inner: InnerView {
                        task_local_data: left.inner.task_local_data,
                        ..prev_task.inner
                    },
                    ..prev_task
                }
                &&& after.tasks == before.tasks.insert(prev.index(), left).insert(
                    next.index(),
                    entered,
                )
                &&& after == SystemView { tasks: after.tasks, tls: after.tls, ..before }
            },
{
}

/// A task switch leaves all TLS areas as they are, but for one case: if the previous task is over, and
/// the area that was active tells a task that is over and is not borrowed, then it tells none
/// afterwards, and still the same ID.
pub proof fn law_switch_takes_an_exited_task_away<P: Platform>(
    prev: TaskRef,
    next: TaskRef,
    apic_id: u8,
    guard: P::PreemptionGuard,
)
    ensures
        forall|system: &mut TaskSystem<P>, cpu: &mut Cpu, switch: TaskSwitch<P::PreemptionGuard>|
         #[trigger]
            call_ensures(
                Task::<P>::task_switch,
                (system, cpu, &prev, next, apic_id, guard),
                switch,
            ) && (*system)@.wf() && (*system)@.cpu_wf((*cpu)@) && (*system)@.has(prev)
                && (*system)@.has(next) && (*system)@.tasks[prev.index()].id
                != (*system)@.tasks[next.index()].id ==> {
                let before = (*system)@;
                let after = (*final(system))@;
                let core = (*cpu)@;
                let prev_state = before.tasks[prev.index()].runstate;
                let vars = match core.fs_task {
                    Some(area) => before.tls[area.index()],
                    None => core.boot_tls,
                };
                let told_state = before.tasks[vars.current_task->0.index()].runstate;
                let taken = {
                    &&& prev_state == RunState::Exited || prev_state == RunState::Reaped
                    &&& vars.current_task is Some
                    &&& told_state == RunState::Exited || told_state == RunState::Reaped
                    &&& vars.borrows == 0
                };
                let left = TlsVariables { current_task: None, ..vars };
                &&& !taken ==> after.tls == before.tls && (*final(cpu))@.boot_tls == core.boot_tls
                &&& taken && core.fs_task is Some ==> {
                    &&& after.tls == before.tls.insert(core.fs_task->0.index(), left)
                    &&& (*final(cpu))@.boot_tls == core.boot_tls
                }
                &&& taken && core.fs_task is None ==> {
                    &&& after.tls == before.tls
                    &&& (*final(cpu))@.boot_tls == left
                }
            },
{
    assert forall|system: &mut TaskSystem<P>, cpu: &mut Cpu, switch: TaskSwitch<P::PreemptionGuard>|
     #[trigger]
        call_ensures(Task::<P>::task_switch, (system, cpu, &prev, next, apic_id, guard), switch)
            && (*system)@.wf() && (*system)@.cpu_wf((*cpu)@) && (*system)@.has(prev)
            && (*system)@.has(next) && (*system)@.tasks[prev.index()].id
            != (*system)@.tasks[next.index()].id && (*cpu)@.fs_task is Some implies (
    *system)@.tls.contains_key((*cpu)@.fs_task->0.index()) && (*system)@.tls.insert(
        (*cpu)@.fs_task->0.index(),
        (*system)@.tls[(*cpu)@.fs_task->0.index()],
    ) == (*system)@.tls by {
        assert((*system)@.task_wf((*cpu)@.fs_task->0.index()));
        assert((*system)@.tls.insert(
            (*cpu)@.fs_task->0.index(),
            (*system)@.tls[(*cpu)@.fs_task->0.index()],
        ) =~= (*system)@.tls);
    }
}

/// After a task switch the core uses the TLS area of the next task, at the address that it has
/// for it, and tells the next task as the current one if that has local data. If it has none,
/// then the core tells the same task as before.
pub proof fn law_switch_sets_the_registers<P: Platform>(
    prev: TaskRef,
    next: TaskRef,
    apic_id: u8,
    guard: P::PreemptionGuard,
)
    ensures
        forall|system: &mut TaskSystem<P>, cpu: &mut Cpu, switch: TaskSwitch<P::PreemptionGuard>|
         #[trigger]
            call_ensures(
                Task::<P>::task_switch,
                (system, cpu, &prev, next, apic_id, guard),
                switch,
            ) && (*system)@.wf() && (*system)@.has(next) && (*system)@.tasks[prev.index()].id
                != (*system)@.tasks[next.index()].id ==> {
                let next_task = (*system)@.tasks[next.index()];
                let core = (*final(cpu))@;
                &&& core.fs_task == Some(next)
                &&& core.fs_base == sign_extended(next_task.tls_area.pointer_value as u64)
                &&& next_task.inner.task_local_data is Some ==> core.gs_base
                    == next_task.inner.task_local_data && core.gs_base->0.taskref == next
                    && core.gs_base->0.task_id == next_task.id
                &&& next_task.inner.task_local_data is None ==> core.gs_base == (*cpu)@.gs_base
            },
{
    assert forall|system: &mut TaskSystem<P>, cpu: &mut Cpu, switch: TaskSwitch<P::PreemptionGuard>|
     #[trigger]
        call_ensures(Task::<P>::task_switch, (system, cpu, &prev, next, apic_id, guard), switch)
            && (*system)@.wf() && (*system)@.has(next)
            && (*system)@.tasks[next.index()].inner.task_local_data is Some implies (
    *system)@.tasks[next.index()].inner.task_local_data->0.taskref == next && (
    *system)@.tasks[next.index()].inner.task_local_data->0.task_id
        == (*system)@.tasks[next.index()].id by {
        assert((*system)@.task_wf(next.index()));
        law_equal_references_name_one_task(
            (*system)@.tasks[next.index()].inner.task_local_data->0.taskref,
            next,
        );
    }
}

/// The context switch that completes a task switch saves the stack pointer of the previous task, goes on
/// with the stack pointer of the next one, and fits the levels of SIMD extensions of both.
pub proof fn law_context_switch<P: Platform>(
    prev: TaskRef,
    next: TaskRef,
    apic_id: u8,
    guard: P::PreemptionGuard,
)
    ensures
        forall|system: &mut TaskSystem<P>, cpu: &mut Cpu, switch: TaskSwitch<P::PreemptionGuard>|
         #[trigger]
            call_ensures(
                Task::<P>::task_switch,
                (system, cpu, &prev, next, apic_id, guard),
                switch,
            ) && (*system)@.tasks[prev.index()].id != (*system)@.tasks[next.index()].id ==> {
                let from = (*system)@.tasks[prev.index()].simd;
                let to = (*system)@.tasks[next.index()].simd;
                &&& switch matches TaskSwitch::Switch(context)
                &&& context.prev == prev
                &&& context.next_saved_sp == (*system)@.tasks[next.index()].inner.saved_sp
                &&& context.routine == (match (from, to) {
                    (SimdExt::Regular, SimdExt::Regular) => ContextSwitchRoutine::Regular,
                    (SimdExt::Regular, SimdExt::SSE) => ContextSwitchRoutine::RegularToSse,
                    (SimdExt::Regular, SimdExt::AVX) => ContextSwitchRoutine::RegularToAvx,
                    (SimdExt::SSE, SimdExt::Regular) => ContextSwitchRoutine::SseToRegular,
                    (SimdExt::SSE, SimdExt::SSE) => ContextSwitchRoutine::Sse,
                    (SimdExt::SSE, SimdExt::AVX) => ContextSwitchRoutine::SseToAvx,
                    (SimdExt::AVX, SimdExt::Regular) => ContextSwitchRoutine::AvxToRegular,
                    (SimdExt::AVX, SimdExt::SSE) => ContextSwitchRoutine::AvxToSse,
                    (SimdExt::AVX, SimdExt::AVX) => ContextSwitchRoutine::Avx,
                })
            },
{
}

/// The routine between two levels of SIMD extensions determines both levels.
pub proof fn law_routines_fit_the_levels(
    from: SimdExt,
    to: SimdExt,
    other_from: SimdExt,
    other_to: SimdExt,
    routine: ContextSwitchRoutine,
)
    requires
        call_ensures(ContextSwitchRoutine::between, (from, to), routine),
        call_ensures(ContextSwitchRoutine::between, (other_from, other_to), routine),
    ensures
        from == other_from,
        to == other_to,
        routine == ContextSwitchRoutine::Regular <==> from == SimdExt::Regular && to
            == SimdExt::Regular,
        routine == ContextSwitchRoutine::Sse <==> from == SimdExt::SSE && to == SimdExt::SSE,
        routine == ContextSwitchRoutine::Avx <==> from == SimdExt::AVX && to == SimdExt::AVX,
        routine == ContextSwitchRoutine::RegularToSse <==> from == SimdExt::Regular && to
            == SimdExt::SSE,
        routine == ContextSwitchRoutine::RegularToAvx <==> from == SimdExt::Regular && to
            == SimdExt::AVX,
        routine == ContextSwitchRoutine::SseToRegular <==> from == SimdExt::SSE && to
            == SimdExt::Regular,
        routine == ContextSwitchRoutine::SseToAvx <==> from == SimdExt::SSE && to == SimdExt::AVX,
        routine == ContextSwitchRoutine::AvxToRegular <==> from == SimdExt::AVX && to
            == SimdExt::Regular,
        routine == ContextSwitchRoutine::AvxToSse <==> from == SimdExt::AVX && to == SimdExt::SSE,
{
}

/// A task that the core was switched to gets back the guard of that switch, once. What was left with it
/// to be dropped is gone then. Nothing else of the system is changed.
pub proof fn law_task_post_context_switch_action<P: Platform>(r: TaskRef)
    ensures
        forall|system: &mut TaskSystem<P>, guard: P::PreemptionGuard| #[trigger]
            call_ensures(TaskRef::post_context_switch_action::<P>, (&r, system), guard) ==> {
                let before = (*system)@;
                let after = (*final(system))@;
                let task = before.tasks[r.index()];
                &&& task.inner.preemption_guard == Some(guard)
                &&& after == SystemView {
                    tasks: before.tasks.insert(
                        r.index(),
                        TaskView {
                            inner: InnerView {
                                preemption_guard: None,
                                drop_after_task_switch: None,
                                ..task.inner
                            },
                            ..task
                        },
                    ),
                    ..before
                }
            },
{
}

/// The place of the saved stack pointer holds the stack pointer of the task, and a write to it changes
/// nothing else.
pub proof fn law_saved_sp<P: Platform>(r: TaskRef)
    ensures
        forall|system: &mut TaskSystem<P>, sp: &mut usize| #[trigger]
            call_ensures(TaskRef::saved_sp::<P>, (&r, system), sp) ==> {
                let before = (*system)@;
                let task = before.tasks[r.index()];
                &&& *sp == task.inner.saved_sp
                &&& (*final(system))@ == SystemView {
                    tasks: before.tasks.insert(
                        r.index(),
                        TaskView {
                            inner: InnerView { saved_sp: *final(sp), ..task.inner },
                            ..task
                        },
                    ),
                    ..before
                }
            },
{
}

/// Addresses below bit 47 stay as they are, and so do those whose upper bits are all set. In between, the
/// upper bits are set.
pub proof fn law_sign_extension(addr: u64)
    ensures
        addr < 0x8000_0000_0000 ==> sign_extended(addr) == addr,
        0x8000_0000_0000 <= addr < 0x1_0000_0000_0000 ==> sign_extended(addr) == addr
            + 0xffff_0000_0000_0000,
        addr >= 0xffff_8000_0000_0000 ==> sign_extended(addr) == addr,
{
}

/// A core gets its first task exactly if there is an initial kernel namespace. The task has the number
/// that the counter had before as its ID. It is runnable, runs on the core and is pinned to it,
/// and is the current one in both ways to tell it. It is on the task list.
/// If another task was there under its ID, an error is reported and it is an orphan, otherwise its
/// joinable reference is returned. Other tasks stay as they were.
pub proof fn law_bootstrap_task<
    P: Platform,
    G: FnOnce(&Arc<P::CrateNamespace>) -> TlsDataImage<P::TlsData>,
>(
    apic_id: u8,
    stack: ManuallyDrop<P::Stack>,
    mmi: Arc<P::MemoryManagement>,
    namespace: Option<&Arc<P::CrateNamespace>>,
    env: Arc<P::Environment>,
    cleanup: P::FailureCleanupFunction,
    tls_image: G,
)
    ensures
        forall|
            system: &mut TaskSystem<P>,
            cpu: &mut Cpu,
            result: Result<JoinableTaskRef, &'static str>,
        | #[trigger]
            call_ensures(
                bootstrap_task::<P, G>,
                (system, cpu, apic_id, stack, mmi, namespace, env, cleanup, tls_image),
                result,
            ) ==> {
                let before = (*system)@;
                let after = (*final(system))@;
                let core = (*final(cpu))@;
                let id = before.next_task_id;
                let r = core.gs_base->0.taskref;
                let task = after.tasks[r.index()];
                &&& namespace is None ==> {
                    &&& result == Err::<JoinableTaskRef, &'static str>(NO_INITIAL_NAMESPACE)
                    &&& after == before
                    &&& core == (*cpu)@
                }
                &&& namespace matches Some(initial) ==> {
                    let listed = before.task_list.contains_key(id);
                    &&& listed ==> result == Err::<JoinableTaskRef, &'static str>(
                        ID_ALREADY_LISTED,
                    )
                    &&& !listed ==> (result matches Ok(joinable) && joinable.task() == r)
                    &&& r.index() == before.slots
                    &&& task.id == id
                    &&& task.name == "bootstrap_task_core_"@ + decimal(apic_id as nat)
                    &&& task.runstate == RunState::Runnable
                    &&& task.running_on_cpu == Some(apic_id)
                    &&& task.joinable == !listed
                    &&& task.mmi == mmi
                    &&& task.namespace == *initial
                    &&& task.app_crate is None
                    &&& task.failure_cleanup_function == cleanup
                    &&& call_ensures(tls_image, (initial,), task.tls_area)
                    &&& task.on_runqueue is None
                    &&& task.simd == SimdExt::Regular
                    &&& !task.is_an_idle_task
                    &&& task.inner == InnerView::<P> {
                        exit_value: None,
                        saved_sp: 0,
                        task_local_data: Some(TaskLocalData { taskref: r, task_id: id }),
                        preemption_guard: None,
                        drop_after_task_switch: None,
                        kstack: stack@,
                        pinned_core: Some(apic_id),
                        kill_handler: None,
                        env,
                        restart_info: None,
                    }
                    &&& after == SystemView {
                        tasks: before.tasks.insert(r.index(), task),
                        tls: before.tls.insert(
                            r.index(),
                            TlsVariables {
                                current_task_id: id,
                                current_task: Some(r),
                                borrows: 0,
                            },
                        ),
                        references: before.references.insert(r.index(), 0),
                        slots: before.slots + 1,
                        task_list: before.task_list.insert(id, r),
                        next_task_id: after.next_task_id,
                        ..before
                    }
                    &&& id < usize::MAX ==> after.next_task_id == id + 1
                    &&& id == usize::MAX ==> after.next_task_id == 0
                    &&& core == CpuView {
                        fs_task: Some(r),
                        fs_base: sign_extended(task.tls_area.pointer_value as u64),
                        gs_base: Some(TaskLocalData { taskref: r, task_id: id }),
                        ..(*cpu)@
                    }
                }
            },
{
}

/// There and back: after a core was switched from one task to another and back again, while both are
/// runnable, the first task runs on the core and holds the guard of the second switch. It is otherwise
/// as it was, and the core uses its TLS area.
pub proof fn law_switch_there_and_back<P: Platform>(
    a: TaskRef,
    b: TaskRef,
    apic_id: u8,
    first: P::PreemptionGuard,
    second: P::PreemptionGuard,
)
    ensures
        forall|
            s1: &mut TaskSystem<P>,
            s2: &mut TaskSystem<P>,
            c1: &mut Cpu,
            c2: &mut Cpu,
            there: TaskSwitch<P::PreemptionGuard>,
            back: TaskSwitch<P::PreemptionGuard>,
        |
            #![trigger call_ensures(Task::<P>::task_switch, (s1, c1, &a, b, apic_id, first), there), call_ensures(Task::<P>::task_switch, (s2, c2, &b, a, apic_id, second), back)]
            call_ensures(Task::<P>::task_switch, (s1, c1, &a, b, apic_id, first), there)
                && call_ensures(Task::<P>::task_switch, (s2, c2, &b, a, apic_id, second), back)
                && *s2 == *final(s1) && *c2 == *final(c1) && (*s1)@.has(a) && (*s1)@.has(b)
                && (*s1)@.tasks[a.index()].id != (*s1)@.tasks[b.index()].id
                && (*s1)@.tasks[a.index()].runstate == RunState::Runnable
                && (*s1)@.tasks[b.index()].runstate == RunState::Runnable ==> {
                let start = (*s1)@.tasks[a.index()];
                let end = (*final(s2))@.tasks[a.index()];
                &&& end.inner.preemption_guard == Some(second)
                &&& (*final(s2))@.tasks[b.index()].inner.preemption_guard == Some(first)
                &&& end == TaskView {
                    running_on_cpu: Some(apic_id),
                    inner: InnerView { preemption_guard: Some(second), ..start.inner },
                    ..start
                }
                &&& (*final(c2))@.fs_task == Some(a)
            },
{
}

} // verus!
