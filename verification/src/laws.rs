//! What holds of the operations on tasks taken together.
use crate::bootstrap::{bootstrapped, cpu_after_bootstrap, system_after_bootstrap};
use crate::current::{area_tls, deinit_result, deinit_tls, init_result, with_area_tls};
use crate::exit::ExitValue;
use crate::hashing::hash_usize;
use crate::lifecycle::{
    exit_result, inheriting, join_next, join_report, killed_report, with_new_task, JoinPhase,
};
use crate::run_state::{is_run_state_path, law_exit_is_permanent, law_life_goes_forward, RunState};
use crate::switch::{
    cpu_after_switch, next_after_switch, prev_after_switch, system_after_switch, tls_after_switch,
};
use crate::system::{lemma_same_active_tls, CpuView, SystemView};
use crate::task::{InnerView, Platform, TaskView, TlsDataImage, ALREADY_EXITED};
use crate::task_ref::{law_equal_references_name_one_task, listed, TaskRef, TlsVariables};
use std::hash::Hasher;
use std::sync::Arc;
use vstd::prelude::*;

verus! {

/// A change of one task leaves every other task as it is.
pub proof fn law_other_tasks_stay_the_same<P: Platform>(
    system: SystemView<P>,
    r: TaskRef,
    task: TaskView<P>,
    other: TaskRef,
)
    requires
        system.has(r),
        system.has(other),
        other != r,
    ensures
        system.with_task(r, task).task(r) == task,
        system.with_task(r, task).task(other) == system.task(other),
{
    law_equal_references_name_one_task(r, other);
}

/// Equal references hash alike: they give the same number to the hasher, and whatever may come of that
/// for one of them may come of it for the other.
pub proof fn law_equal_references_hash_alike<H: Hasher>(a: TaskRef, b: TaskRef, i: usize, j: usize)
    requires
        a == b,
        i == a.index(),
        j == b.index(),
    ensures
        i == j,
        forall|s: &mut H| #[trigger]
            call_ensures(hash_usize::<H>, (&i, s), ()) ==> call_ensures(
                hash_usize::<H>,
                (&j, s),
                (),
            ),
{
}

/// A history of a system: each state is valid, and comes from the one before by an operation.
pub open spec fn is_history<P: Platform>(
    history: Seq<SystemView<P>>,
) -> bool {
    &&& forall|i: int| 0 <= i < history.len() ==> (#[trigger] history[i]).wf()
    &&& forall|i: int|
        0 <= i < history.len() - 1 ==> (#[trigger] history[i]).evolves_to(history[i + 1])
}

/// The run states that a task goes through in a part of a history.
pub open spec fn run_states<P: Platform>(
    history: Seq<SystemView<P>>,
    r: TaskRef,
    from: int,
    to: int,
) -> Seq<RunState> {
    Seq::new((to - from + 1) as nat, |k: int| history[from + k].task(r).runstate)
}

/// A task that something of the system refers to stays in the system.
pub proof fn law_tasks_stay_while_referred_to<P: Platform>(
    before: SystemView<P>,
    after: SystemView<P>,
    r: TaskRef,
)
    requires
        before.evolves_to(after),
        before.has(r),
        before.refers_to(r),
    ensures
        after.has(r),
{
    assert(before.task_evolves_to(after, r));
}

/// References are not handed out again.
proof fn lemma_slots_grow<P: Platform>(history: Seq<SystemView<P>>, i: int, j: int)
    requires
        is_history(history),
        0 <= i <= j < history.len(),
    ensures
        history[i].slots <= history[j].slots,
    decreases j - i,
{
    if i < j {
        assert(history[i].evolves_to(history[i + 1]));
        lemma_slots_grow(history, i + 1, j);
    }
}

/// A reference to a released task never comes to refer to a task again.
pub proof fn law_released_tasks_stay_away<P: Platform>(
    history: Seq<SystemView<P>>,
    r: TaskRef,
    i: int,
    j: int,
)
    requires
        is_history(history),
        0 <= i <= j < history.len(),
        r.index() < history[i].slots,
        !history[i].has(r),
    ensures
        !history[j].has(r),
    decreases j - i,
{
    if i < j {
        assert(history[i].evolves_to(history[i + 1]));
        law_released_tasks_stay_away(history, r, i + 1, j);
    }
}

/// A task that is there at two times is there at all times in between.
proof fn lemma_there_in_between<P: Platform>(
    history: Seq<SystemView<P>>,
    r: TaskRef,
    i: int,
    k: int,
    j: int,
)
    requires
        is_history(history),
        0 <= i <= k <= j < history.len(),
        history[i].has(r),
        history[j].has(r),
    ensures
        history[k].has(r),
{
    assert(history[i].task_wf(r.index()));
    lemma_slots_grow(history, i, k);
    if !history[k].has(r) {
        law_released_tasks_stay_away(history, r, k, j);
    }
}

/// As long as a task is there, its ID never changes.
pub proof fn law_ids_are_permanent<P: Platform>(
    history: Seq<SystemView<P>>,
    r: TaskRef,
    i: int,
    j: int,
)
    requires
        is_history(history),
        0 <= i <= j < history.len(),
        history[i].has(r),
        history[j].has(r),
    ensures
        history[j].task(r).id == history[i].task(r).id,
    decreases j - i,
{
    if i < j {
        lemma_there_in_between(history, r, i, i + 1, j);
        assert(history[i].evolves_to(history[i + 1]));
        assert(history[i].task_evolves_to(history[i + 1], r));
        law_ids_are_permanent(history, r, i + 1, j);
    }
}

/// The run states that a task goes through follow the transitions between run states.
pub proof fn law_tasks_follow_the_run_states<P: Platform>(
    history: Seq<SystemView<P>>,
    r: TaskRef,
    from: int,
    to: int,
)
    requires
        is_history(history),
        0 <= from <= to < history.len(),
        history[from].has(r),
        history[to].has(r),
    ensures
        is_run_state_path(run_states(history, r, from, to)),
{
    let path = run_states(history, r, from, to);
    assert forall|k: int| 0 <= k < path.len() - 1 implies (#[trigger] path[k]).steps_to(
        path[k + 1],
    ) by {
        lemma_there_in_between(history, r, from, from + k, to);
        lemma_there_in_between(history, r, from, from + k + 1, to);
        assert(history[from + k].evolves_to(history[from + k + 1]));
        assert(history[from + k].task_evolves_to(history[from + k + 1], r));
    }
}

/// A task that has exited never runs again: it stays exited, whatever is done to the tasks of the
/// system afterwards. A reaped task stays reaped.
pub proof fn law_exited_tasks_stay_exited<P: Platform>(
    history: Seq<SystemView<P>>,
    r: TaskRef,
    i: int,
    j: int,
)
    requires
        is_history(history),
        0 <= i <= j < history.len(),
        history[i].has(r),
        history[j].has(r),
        history[i].task(r).runstate.is_over(),
    ensures
        history[j].task(r).runstate.is_over(),
        history[i].task(r).runstate == RunState::Reaped
            ==> history[j].task(r).runstate == RunState::Reaped,
{
    let path = run_states(history, r, i, j);
    law_tasks_follow_the_run_states(history, r, i, j);
    law_life_goes_forward(path, 0, j - i);
    assert(path[0] == history[i].task(r).runstate);
    assert(path[j - i] == history[j].task(r).runstate);
}

/// The exit value of a task can be taken only once: after it was taken, every later attempt to take
/// it returns nothing, whatever is done in between.
pub proof fn law_exit_value_is_taken_once<P: Platform>(
    history: Seq<SystemView<P>>,
    r: TaskRef,
    i: int,
    j: int,
)
    requires
        is_history(history),
        0 <= i < j < history.len(),
        history[i].has(r),
        history[j].has(r),
        history[i].task(r).reaped_value() is Some,
        history[i + 1] == history[i].after_reap(r),
    ensures
        history[j].task(r).reaped_value() is None,
{
    law_exited_tasks_stay_exited(history, r, i + 1, j);
}

/// The exit value of an exited task stays the same until it is taken,
/// whatever is done to the tasks of the system in between.
pub proof fn law_exit_value_is_kept<P: Platform>(
    history: Seq<SystemView<P>>,
    r: TaskRef,
    i: int,
    j: int,
)
    requires
        is_history(history),
        0 <= i <= j < history.len(),
        history[i].has(r),
        history[j].has(r),
        history[i].task(r).runstate == RunState::Exited,
        history[j].task(r).runstate == RunState::Exited,
    ensures
        history[j].task(r).reaped_value() == history[i].task(r).reaped_value(),
    decreases j - i,
{
    if i < j {
        lemma_there_in_between(history, r, i, i + 1, j);
        assert(history[i].evolves_to(history[i + 1]));
        assert(history[i].task_evolves_to(history[i + 1], r));
        law_exited_tasks_stay_exited(history, r, i + 1, j);
        law_exit_value_is_kept(history, r, i + 1, j);
    }
}

/// The value that a task exited with is the one that is taken from it later: as long as the task
/// is not reaped, an attempt to take its exit value returns this value,
/// whatever was done in between.
pub proof fn law_exit_value_is_given_back<P: Platform>(
    history: Seq<SystemView<P>>,
    r: TaskRef,
    val: ExitValue<P::Payload>,
    i: int,
    j: int,
)
    requires
        is_history(history),
        0 <= i < j < history.len(),
        history[i].has(r),
        history[j].has(r),
        !history[i].task(r).runstate.is_over(),
        history[i + 1] == history[i].with_task(r, history[i].task(r).after_exit(val)),
        history[j].task(r).runstate != RunState::Reaped,
    ensures
        history[j].task(r).reaped_value() == Some(val),
{
    law_exited_tasks_stay_exited(history, r, i + 1, j);
    law_exit_value_is_kept(history, r, i + 1, j);
}

/// A task that exits gives back the value that it exited with, and its exit value is not
/// overwritten by another attempt to make it exit, which reports an error.
pub proof fn law_first_exit_value_counts<P: Platform>(
    task: TaskView<P>,
    first: ExitValue<P::Payload>,
    second: ExitValue<P::Payload>,
)
    requires
        !task.runstate.is_over(),
    ensures
        task.exit_report() == Ok::<Option<u8>, &'static str>(task.on_runqueue),
        exit_result(task.exit_report()) is Ok,
        task.after_exit(first).reaped_value() == Some(first),
        task.after_exit(first).exit_report() == Err::<Option<u8>, &'static str>(
            ALREADY_EXITED,
        ),
        task.after_exit(first).after_exit(second) == task.after_exit(first),
{
}

/// A reaped task cannot be made to exit again either.
pub proof fn law_reaped_tasks_do_not_exit<P: Platform>(
    task: TaskView<P>,
    val: ExitValue<P::Payload>,
)
    requires
        task.runstate == RunState::Exited,
    ensures
        task.after_reap().exit_report() is Err,
        task.after_reap().after_exit(val) == task.after_reap(),
        task.after_reap().reaped_value() is None,
{
}

/// An exited task is found by its ID until its exit value is taken, if it was on the task list;
/// afterwards it is not found. Tasks with other IDs are found as before.
pub proof fn law_reaped_tasks_are_not_listed<P: Platform>(
    system: SystemView<P>,
    r: TaskRef,
    other_id: usize,
)
    requires
        system.has(r),
        system.task(r).runstate == RunState::Exited,
        other_id != system.task(r).id,
    ensures
        listed(system.after_reap(r).task_list, system.task(r).id) is None,
        listed(system.after_reap(r).task_list, other_id)
            == listed(system.task_list, other_id),
{
}

/// An attempt to take the exit value of a task that is not in the exited state does nothing.
pub proof fn law_only_exited_tasks_are_reaped<P: Platform>(
    system: SystemView<P>,
    r: TaskRef,
)
    requires
        system.has(r),
        system.task(r).runstate != RunState::Exited,
    ensures
        system.after_reap(r) == system,
        system.task(r).reaped_value() is None,
{
    assert(system.after_reap(r).tasks =~= system.tasks);
}

/// A task on the task list is found by its ID, and tasks with other IDs are found as before.
pub proof fn law_listed_tasks_are_found<P: Platform>(
    system: SystemView<P>,
    r: TaskRef,
    other_id: usize,
)
    requires
        system.has(r),
        other_id != system.task(r).id,
    ensures
        listed(system.with_listed(r).task_list, system.task(r).id) == Some(r),
        listed(system.with_listed(r).task_list, other_id)
            == listed(system.task_list, other_id),
{
}

/// In a valid system, whatever task is found by an ID has this ID.
pub proof fn law_found_tasks_have_the_id<P: Platform>(system: SystemView<P>, id: usize)
    requires
        system.wf(),
    ensures
        listed(system.task_list, id) matches Some(r) ==> system.has(r)
            && system.task(r).id == id,
{
}

/// A task that is an orphan stays one, whatever is done to the tasks of the system.
pub proof fn law_orphans_stay_orphans<P: Platform>(
    history: Seq<SystemView<P>>,
    r: TaskRef,
    i: int,
    j: int,
)
    requires
        is_history(history),
        0 <= i <= j < history.len(),
        history[i].has(r),
        history[j].has(r),
        !history[i].task(r).joinable,
    ensures
        !history[j].task(r).joinable,
    decreases j - i,
{
    if i < j {
        lemma_there_in_between(history, r, i, i + 1, j);
        assert(history[i].evolves_to(history[i + 1]));
        assert(history[i].task_evolves_to(history[i + 1], r));
        law_orphans_stay_orphans(history, r, i + 1, j);
    }
}

/// A task is joinable from the moment that it gets its reference until its joinable reference is
/// given up: no other operation on the task changes that.
pub proof fn law_tasks_are_joinable_until_given_up<P: Platform>(
    system: SystemView<P>,
    task: TaskView<P>,
    new: TaskRef,
    other: TaskView<P>,
    runstate: RunState,
    val: ExitValue<P::Payload>,
    env: Arc<P::Environment>,
    handler: Option<P::KillHandler>,
    apic_id: u8,
    guard: P::PreemptionGuard,
)
    requires
        new.index() == system.slots,
    ensures
        with_new_task(system, task, new).task(new).joinable,
        !task.with_joinable(false).joinable,
        task.with_runstate(runstate).joinable == task.joinable,
        task.after_exit(val).joinable == task.joinable,
        task.after_reap().joinable == task.joinable,
        task.with_env(env).joinable == task.joinable,
        task.with_runqueue(Some(apic_id)).joinable == task.joinable,
        task.with_runqueue(None).joinable == task.joinable,
        task.with_kill_handler(handler).joinable == task.joinable,
        prev_after_switch(task).joinable == task.joinable,
        next_after_switch(other, task, apic_id, guard).joinable == task.joinable,
        task.after_context_switch().joinable == task.joinable,
{
}

/// The kill handler that was registered for the current task is the one that is taken from it, as
/// long as both ways to tell the current task agree. Afterwards there is none to take.
pub proof fn law_kill_handler_is_taken_once<P: Platform>(
    system: SystemView<P>,
    cpu: CpuView,
    r: TaskRef,
    handler: P::KillHandler,
)
    requires
        system.wf(),
        system.cpu_wf(cpu),
        cpu.current() == Some(r),
        system.active_tls(cpu).current_task == Some(r),
    ensures
        ({
            let set = system.with_task(r, system.task(r).with_kill_handler(Some(handler)));
            let taken = set.with_task(r, set.task(r).with_kill_handler(None));
            &&& set.active_tls(cpu).current_task == Some(r)
            &&& set.task(r).inner.kill_handler == Some(handler)
            &&& taken.active_tls(cpu).current_task == Some(r)
            &&& taken.task(r).inner.kill_handler is None
        }),
{
}

/// A new task gets a reference that differs from all that were handed out before, and leaves those
/// tasks as they are. It is not put on the task list or on a runqueue, and is not scheduled in.
pub proof fn law_new_references_are_new<P: Platform>(
    system: SystemView<P>,
    task: TaskView<P>,
    new: TaskRef,
    other: TaskRef,
)
    requires
        new.index() == system.slots,
        other.index() < system.slots,
    ensures
        other != new,
        with_new_task(system, task, new).has(new),
        with_new_task(system, task, new).slots > new.index(),
        with_new_task(system, task, new).has(other) == system.has(other),
        with_new_task(system, task, new).task(new).on_runqueue == task.on_runqueue,
        with_new_task(system, task, new).task(new).runstate == task.runstate,
        with_new_task(system, task, new).task(new).running_on_cpu == task.running_on_cpu,
        with_new_task(system, task, new).task(other) == system.task(other),
        with_new_task(system, task, new).task_list == system.task_list,
{
}

/// The state of a system after `n` more tasks got their IDs.
pub open spec fn after_ids<P: Platform>(
    system: SystemView<P>,
    n: nat,
) -> SystemView<P>
    decreases n,
{
    if n == 0 {
        system
    } else {
        after_ids(system, (n - 1) as nat).with_next_id()
    }
}

/// IDs are handed out in order, starting again from zero after the largest one.
pub proof fn law_ids_are_handed_out_in_order<P: Platform>(
    system: SystemView<P>,
    n: nat,
)
    ensures
        after_ids(system, n).next_task_id == (system.next_task_id + n) % (usize::MAX + 1),
    decreases n,
{
    if n > 0 {
        law_ids_are_handed_out_in_order(system, (n - 1) as nat);
        let m = usize::MAX + 1;
        let x = system.next_task_id + n - 1;
        vstd::arithmetic::div_mod::lemma_add_mod_noop(x, 1, m);
        vstd::arithmetic::div_mod::lemma_small_mod(1, m as nat);
        if x % m == m - 1 {
            vstd::arithmetic::div_mod::lemma_mod_self_0(m);
        } else {
            vstd::arithmetic::div_mod::lemma_small_mod((x % m + 1) as nat, m as nat);
        }
    } else {
        vstd::arithmetic::div_mod::lemma_small_mod(
            system.next_task_id as nat,
            (usize::MAX + 1) as nat,
        );
    }
}

/// Two tasks never get the same ID, unless more IDs were handed out in between
/// than there are numbers for them.
pub proof fn law_ids_are_unique<P: Platform>(
    system: SystemView<P>,
    n: nat,
)
    requires
        0 < n <= usize::MAX,
    ensures
        after_ids(system, n).next_task_id != system.next_task_id,
{
    law_ids_are_handed_out_in_order(system, n);
    let m = usize::MAX + 1;
    let x = system.next_task_id + n;
    if x < m {
        vstd::arithmetic::div_mod::lemma_small_mod(x as nat, m as nat);
    } else {
        vstd::arithmetic::div_mod::lemma_mod_sub_multiples_vanish(x, m);
        vstd::arithmetic::div_mod::lemma_small_mod((x - m) as nat, m as nat);
    }
}

/// After a task switch the next task is the current one of the core: the core uses its TLS area,
/// and tells it as the current task if it has local data. It runs on this core, the previous
/// task runs nowhere, and no other task is affected.
pub proof fn law_switch_makes_next_current<P: Platform>(
    system: SystemView<P>,
    cpu: CpuView,
    prev: TaskRef,
    next: TaskRef,
    other: TaskRef,
    apic_id: u8,
    guard: P::PreemptionGuard,
)
    requires
        system.wf(),
        system.cpu_wf(cpu),
        system.has(prev),
        system.has(next),
        system.has(other),
        system.task(prev).id != system.task(next).id,
        other != prev,
        other != next,
    ensures
        ({
            let after = system_after_switch(system, cpu, prev, next, apic_id, guard);
            let core = cpu_after_switch(system, cpu, prev, next);
            &&& core.fs_task == Some(next)
            &&& system.task(next).inner.task_local_data is Some ==> core.current() == Some(next)
            &&& after.task(next).running_on_cpu == Some(apic_id)
            &&& after.task(prev).running_on_cpu is None
            &&& after.task(other) == system.task(other)
        }),
{
    law_equal_references_name_one_task(other, prev);
    law_equal_references_name_one_task(other, next);
    assert(system.task_wf(next.index()));
    if let Some(data) = system.task(next).inner.task_local_data {
        law_equal_references_name_one_task(data.taskref, next);
    }
}

/// No task but `r` runs on the core `apic_id`.
pub open spec fn only_runs<P: Platform>(system: SystemView<P>, apic_id: u8, r: TaskRef) -> bool {
    forall|i: int| system.tasks.contains_key(i) && i != r.index() ==> (#[trigger]
        system.tasks[i]).running_on_cpu != Some(apic_id)
}

/// A core runs one task at a time: if no task but the previous one runs on it before a task switch,
/// then no task but the next one does afterwards. No task comes to run on another core.
pub proof fn law_cores_run_one_task<P: Platform>(
    system: SystemView<P>,
    cpu: CpuView,
    prev: TaskRef,
    next: TaskRef,
    apic_id: u8,
    guard: P::PreemptionGuard,
    other: TaskRef,
    other_core: u8,
)
    requires
        system.has(prev),
        system.has(next),
        system.has(other),
        system.task(prev).id != system.task(next).id,
        only_runs(system, apic_id, prev),
        other_core != apic_id,
    ensures
        ({
            let after = system_after_switch(system, cpu, prev, next, apic_id, guard);
            &&& only_runs(after, apic_id, next)
            &&& after.task(next).running_on_cpu == Some(apic_id)
            &&& after.task(other).running_on_cpu == Some(other_core) ==> system.task(
                other,
            ).running_on_cpu == Some(other_core)
        }),
{
    let after = system_after_switch(system, cpu, prev, next, apic_id, guard);
    assert forall|i: int| after.tasks.contains_key(i) && i != next.index() implies (#[trigger]
        after.tasks[i]).running_on_cpu != Some(apic_id) by {
        if i != prev.index() {
            assert(after.tasks[i] == system.tasks[i]);
        }
    }
}

/// The preemption guard that a task switch is given is the one that the next task gets back after
/// the context switch. After that it holds neither a guard nor data to be dropped.
pub proof fn law_switch_hands_over_the_guard<P: Platform>(
    system: SystemView<P>,
    cpu: CpuView,
    prev: TaskRef,
    next: TaskRef,
    apic_id: u8,
    guard: P::PreemptionGuard,
)
    requires
        system.has(prev),
        system.has(next),
        system.task(prev).id != system.task(next).id,
    ensures
        ({
            let after = system_after_switch(system, cpu, prev, next, apic_id, guard);
            let resumed = after.task(next).after_context_switch();
            &&& after.task(next).inner.preemption_guard == Some(guard)
            &&& resumed.inner.preemption_guard is None
            &&& resumed.inner.drop_after_task_switch is None
        }),
{
}

/// Switching away from an exited task takes its local data away from it, so that nothing of the task
/// refers to itself any more; the next task holds them until the context switch is over.
/// The TLS area that was active does not tell an exited task as the current one any more,
/// unless it is borrowed.
pub proof fn law_switch_cleans_up_exited_tasks<P: Platform>(
    system: SystemView<P>,
    cpu: CpuView,
    prev: TaskRef,
    next: TaskRef,
    apic_id: u8,
    guard: P::PreemptionGuard,
)
    requires
        system.wf(),
        system.cpu_wf(cpu),
        system.has(prev),
        system.has(next),
        system.task(prev).id != system.task(next).id,
        system.task(prev).runstate.is_over(),
    ensures
        ({
            let after = system_after_switch(system, cpu, prev, next, apic_id, guard);
            &&& after.task(prev).inner.task_local_data is None
            &&& after.task(next).inner.drop_after_task_switch == system.task(
                prev,
            ).inner.task_local_data
            &&& system.active_tls(cpu).borrows == 0 ==> (after.active_tls(
                cpu.with_active_tls(tls_after_switch(system, cpu, prev)),
            ).current_task matches Some(r) ==> !system.task(r).runstate.is_over())
        }),
{
    if let Some(r) = cpu.fs_task {
        assert(system.task_wf(r.index()));
    }
}

/// Switching between two tasks that have not exited, there and back, leaves the core with the first
/// task as its current one, which runs on this core again, while the second one runs nowhere.
pub proof fn law_switching_back<P: Platform>(
    system: SystemView<P>,
    cpu: CpuView,
    a: TaskRef,
    b: TaskRef,
    apic_id: u8,
    first: P::PreemptionGuard,
    second: P::PreemptionGuard,
)
    requires
        system.wf(),
        system.cpu_wf(cpu),
        system.has(a),
        system.has(b),
        system.task(a).id != system.task(b).id,
        !system.task(a).runstate.is_over(),
        !system.task(b).runstate.is_over(),
        system.task(a).running_on_cpu == Some(apic_id),
        system.task(b).running_on_cpu is None,
        cpu == system.cpu_running(cpu, a),
        system.task(a).inner.task_local_data is Some,
    ensures
        ({
            let there = system_after_switch(system, cpu, a, b, apic_id, first);
            let core = cpu_after_switch(system, cpu, a, b);
            let resumed = there.with_task(b, there.task(b).after_context_switch());
            let back = system_after_switch(resumed, core, b, a, apic_id, second);
            let last = back.with_task(a, back.task(a).after_context_switch());
            &&& cpu_after_switch(resumed, core, b, a) == cpu
            &&& last.task(a) == system.task(a).after_context_switch()
            &&& last.task(b) == system.task(b).after_context_switch()
        }),
{
}

/// Both ways to tell the current task of a core agree on `r`.
pub open spec fn agree_on<P: Platform>(system: SystemView<P>, cpu: CpuView, r: TaskRef) -> bool {
    &&& cpu.current() == Some(r)
    &&& cpu.fs_task == Some(r)
    &&& system.active_tls(cpu).current_task == Some(r)
    &&& system.active_tls(cpu).current_task_id == system.task(r).id
}

/// A bootstrapped task is the current one of its core, in both ways to tell it. It is found by its
/// ID, and its local data refer back to it.
pub proof fn law_bootstrapped_task_is_current<P: Platform>(
    system: SystemView<P>,
    cpu: CpuView,
    task: TaskView<P>,
    r: TaskRef,
)
    requires
        system.wf(),
        r.index() == system.slots,
    ensures
        ({
            let after = system_after_bootstrap(system, task, r);
            let core = cpu_after_bootstrap(cpu, task, r);
            &&& agree_on(after, core, r)
            &&& listed(after.task_list, task.id) == Some(r)
            &&& after.task(r).inner.task_local_data matches Some(data) && data.taskref == r
                && data.task_id == task.id
        }),
{
}

/// A bootstrapped task is runnable, and runs on the core that it is pinned to. It is on no runqueue.
pub proof fn law_bootstrapped_tasks_are_pinned<P: Platform>(
    id: usize,
    inner: InnerView<P>,
    mmi: Arc<P::MemoryManagement>,
    namespace: Arc<P::CrateNamespace>,
    failure_cleanup_function: P::FailureCleanupFunction,
    tls_area: TlsDataImage<P::TlsData>,
    apic_id: u8,
)
    ensures
        ({
            let task = bootstrapped(
                TaskView::fresh(
                    id,
                    inner,
                    mmi,
                    namespace,
                    None,
                    failure_cleanup_function,
                    tls_area,
                ),
                apic_id,
            );
            &&& task.runstate == RunState::Runnable
            &&& task.running_on_cpu == Some(apic_id)
            &&& task.inner.pinned_core == Some(apic_id)
            &&& task.on_runqueue is None
        }),
{
}

/// A task that was set as the current one in its own TLS area, and that has its local data, is the
/// current task of the core after a switch to it, in both ways to tell it.
pub proof fn law_switch_keeps_agreement<P: Platform>(
    system: SystemView<P>,
    cpu: CpuView,
    prev: TaskRef,
    next: TaskRef,
    apic_id: u8,
    guard: P::PreemptionGuard,
)
    requires
        system.wf(),
        system.cpu_wf(cpu),
        system.has(prev),
        system.has(next),
        system.task(prev).id != system.task(next).id,
        system.task(prev).runstate.is_over() && system.task(next).runstate.is_over()
            ==> cpu.fs_task != Some(next),
        system.task(next).inner.task_local_data is Some,
        system.tls[next.index()].current_task == Some(next),
    ensures
        agree_on(
            system_after_switch(system, cpu, prev, next, apic_id, guard),
            cpu_after_switch(system, cpu, prev, next),
            next,
        ),
{
    assert(system.task_wf(next.index()));
    if let Some(data) = system.task(next).inner.task_local_data {
        law_equal_references_name_one_task(data.taskref, next);
    }
    if let Some(r) = cpu.fs_task {
        law_equal_references_name_one_task(r, next);
    }
}

/// Once a task has been set as the current one, it is told as the current one together with its ID,
/// and no task can be set as the current one any more, until it was taken away again.
pub proof fn law_current_task_is_set_once<P: Platform>(
    system: SystemView<P>,
    cpu: CpuView,
    id: usize,
    task: Option<TaskRef>,
    other_id: usize,
    other_task: Option<TaskRef>,
)
    requires
        system.wf(),
        system.cpu_wf(cpu),
        task matches Some(r) ==> system.has(r),
        init_result(system, cpu, id, task) is Some,
    ensures
        ({
            let r = init_result(system, cpu, id, task)->0;
            let vars = TlsVariables { current_task_id: id, current_task: Some(r), borrows: 0 };
            let after = system.with_active_tls(cpu, vars);
            let core = cpu.with_active_tls(vars);
            &&& after.active_tls(core) == vars
            &&& after.task(r).id == id
            &&& init_result(after, core, other_id, other_task) is None
        }),
{
}

/// The current task can be taken away only after it has exited, and only if it is not borrowed.
/// Then there is no current task, and another one can be set.
pub proof fn law_exited_current_task_is_taken_away<P: Platform>(
    system: SystemView<P>,
    cpu: CpuView,
    other: TaskRef,
)
    requires
        system.wf(),
        system.cpu_wf(cpu),
        system.has(other),
    ensures
        ({
            let vars = deinit_tls(system, cpu);
            let after = system.with_active_tls(cpu, vars);
            let core = cpu.with_active_tls(vars);
            &&& deinit_result(system, cpu) matches Some(r) ==> {
                &&& system.task(r).runstate.is_over()
                &&& system.active_tls(cpu).borrows == 0
                &&& after.active_tls(core).current_task is None
                &&& deinit_result(after, core) is None
                &&& init_result(after, core, system.task(other).id, Some(other))
                    == Some(other)
            }
            &&& deinit_result(system, cpu) is None ==> {
                &&& after == system
                &&& core == cpu
            }
        }),
{
    lemma_same_active_tls(system, cpu);
}

/// While the current task is borrowed, no task can be set as the current one, and the current one
/// can not be taken away. After the borrow has ended, everything is as it was before.
pub proof fn law_borrowed_current_task_stays<P: Platform>(
    system: SystemView<P>,
    cpu: CpuView,
    id: usize,
    task: Option<TaskRef>,
)
    requires
        system.wf(),
        system.cpu_wf(cpu),
        system.active_tls(cpu).current_task is Some,
        system.active_tls(cpu).borrows < usize::MAX,
    ensures
        ({
            let vars = system.active_tls(cpu);
            let begun = TlsVariables { borrows: (vars.borrows + 1) as usize, ..vars };
            let after = system.with_active_tls(cpu, begun);
            let core = cpu.with_active_tls(begun);
            &&& init_result(after, core, id, task) is None
            &&& deinit_result(after, core) is None
            &&& area_tls(after, core, cpu.fs_task) == begun
            &&& with_area_tls(after, cpu.fs_task, vars) == system
            &&& core.with_active_tls(vars) == cpu
        }),
{
    if let Some(r) = cpu.fs_task {
        assert(system.task_wf(r.index()));
        let vars = system.active_tls(cpu);
        let begun = TlsVariables { borrows: (vars.borrows + 1) as usize, ..vars };
        assert(system.tls.insert(r.index(), begun).insert(r.index(), vars) =~= system.tls);
    }
}

/// Nothing but the task itself, the task list and one core refers to the task: no other task does,
/// neither do the data that a task is to drop nor the TLS area that the core started with,
/// and there is no counted reference.
pub open spec fn only_self_refers<P: Platform>(
    system: SystemView<P>,
    cpu: CpuView,
    r: TaskRef,
) -> bool {
    &&& forall|i: int|
        system.tasks.contains_key(i) && i != r.index() ==> !(#[trigger] system.task_refers_to(i, r))
    &&& system.task(r).inner.drop_after_task_switch matches Some(data) ==> data.taskref != r
    &&& system.references[r.index()] == 0
    &&& cpu.boot_tls.current_task != Some(r)
}

/// A task that nothing of the system refers to can be released once its joinable reference
/// is given up.
proof fn lemma_given_up_tasks_are_releasable<P: Platform>(system: SystemView<P>, r: TaskRef)
    requires
        system.has(r),
        !system.refers_to(r),
        system.tls[r.index()].borrows == 0,
        system.references[r.index()] == 0,
    ensures
        system.with_task(r, system.task(r).with_joinable(false)).is_releasable(r),
{
    let after = system.with_task(r, system.task(r).with_joinable(false));
    assert forall|i: int| after.tasks.contains_key(i) implies !(#[trigger] after.task_refers_to(
        i,
        r,
    )) by {
        assert(!system.task_refers_to(i, r));
    }
    assert forall|id: usize| #[trigger] after.task_list.contains_key(id) implies after.task_list[id]
        != r by {
        assert(system.task_list.contains_key(id));
    }
}

/// A task that came to its end can be released. Take a running task that only its own local data, its
/// own TLS area, the task list and its core refer to. After it has exited, its core was switched to
/// a task with local data, that task has done what follows the context switch, and the exit value
/// was taken, nothing refers to the task any more: no local data, no data to be dropped, no TLS area,
/// no entry of the task list, and not the core. So it can be released
/// once its joinable reference is given up.
pub proof fn law_ended_tasks_can_be_released<P: Platform>(
    system: SystemView<P>,
    cpu: CpuView,
    r: TaskRef,
    next: TaskRef,
    val: ExitValue<P::Payload>,
    apic_id: u8,
    guard: P::PreemptionGuard,
)
    requires
        system.wf(),
        system.cpu_wf(cpu),
        system.has(r),
        system.has(next),
        system.task(r).id != system.task(next).id,
        !system.task(r).runstate.is_over(),
        system.task(r).running_on_cpu is Some,
        only_self_refers(system, cpu, r),
        system.tls[r.index()].borrows == 0,
        cpu.fs_task == Some(r),
        system.task(next).inner.task_local_data is Some,
    ensures
        ({
            let exited = system.with_task(r, system.task(r).after_exit(val));
            let switched = system_after_switch(exited, cpu, r, next, apic_id, guard);
            let core = cpu_after_switch(exited, cpu, r, next);
            let resumed = switched.with_task(next, switched.task(next).after_context_switch());
            let reaped = resumed.after_reap(r);
            &&& reaped.has(r)
            &&& reaped.task(r).runstate == RunState::Reaped
            &&& !reaped.refers_to(r)
            &&& !core.refers_to(r)
            &&& reaped.with_task(r, reaped.task(r).with_joinable(false)).is_releasable(r)
        }),
{
    let exited = system.with_task(r, system.task(r).after_exit(val));
    let switched = system_after_switch(exited, cpu, r, next, apic_id, guard);
    let resumed = switched.with_task(next, switched.task(next).after_context_switch());
    let reaped = resumed.after_reap(r);
    law_equal_references_name_one_task(r, next);
    assert(system.task_wf(r.index()));
    assert(system.task_wf(next.index()));
    assert forall|i: int| reaped.tasks.contains_key(i) implies !(#[trigger] reaped.task_refers_to(
        i,
        r,
    )) by {
        assert(system.task_wf(i));
        if i != r.index() {
            assert(!system.task_refers_to(i, r));
        }
    }
    assert forall|id: usize| #[trigger] reaped.task_list.contains_key(id) implies reaped.task_list[id]
        != r by {
        assert(system.task_list.contains_key(id));
    }
    lemma_given_up_tasks_are_releasable(reaped, r);
}

/// A task that is killed while it runs nowhere can be released as well, once its exit value was taken,
/// if nothing referred to it but its own local data and the task list,
/// and its joinable reference is given up.
pub proof fn law_killed_tasks_can_be_released<P: Platform>(
    system: SystemView<P>,
    cpu: CpuView,
    r: TaskRef,
    val: ExitValue<P::Payload>,
)
    requires
        system.wf(),
        system.has(r),
        !system.task(r).runstate.is_over(),
        system.task(r).running_on_cpu is None,
        only_self_refers(system, cpu, r),
        system.tls[r.index()] == TlsVariables::initial(),
    ensures
        ({
            let reaped = system.with_task(r, system.task(r).after_exit(val)).after_reap(r);
            &&& !reaped.refers_to(r)
            &&& reaped.with_task(r, reaped.task(r).with_joinable(false)).is_releasable(r)
        }),
{
    let reaped = system.with_task(r, system.task(r).after_exit(val)).after_reap(r);
    assert forall|i: int| reaped.tasks.contains_key(i) implies !(#[trigger] reaped.task_refers_to(
        i,
        r,
    )) by {
        assert(system.task_wf(i));
        if i != r.index() {
            assert(!system.task_refers_to(i, r));
        }
    }
    assert forall|id: usize| #[trigger] reaped.task_list.contains_key(id) implies reaped.task_list[id]
        != r by {
        assert(system.task_list.contains_key(id));
    }
    lemma_given_up_tasks_are_releasable(reaped, r);
}

/// A task on the task list can not be released, nor can one that has its local data still, nor one
/// with a counted reference, nor one whose joinable reference was not given up.
pub proof fn law_tasks_in_use_are_not_released<P: Platform>(
    system: SystemView<P>,
    r: TaskRef,
)
    requires
        system.wf(),
        system.has(r),
    ensures
        listed(system.task_list, system.task(r).id) == Some(r) ==> !system.is_releasable(r),
        system.task(r).inner.task_local_data is Some ==> !system.is_releasable(r),
        system.references[r.index()] > 0 ==> !system.is_releasable(r),
        system.task(r).joinable ==> !system.is_releasable(r),
{
    assert(system.task_wf(r.index()));
    if let Some(data) = system.task(r).inner.task_local_data {
        law_equal_references_name_one_task(data.taskref, r);
        assert(system.task_refers_to(r.index(), r));
    }
}

/// A task that is kept by nothing but counted references can be released exactly when the last one
/// of them is given up. Sharing a reference and giving it up again changes nothing.
pub proof fn law_last_reference_lets_the_task_go<P: Platform>(
    system: SystemView<P>,
    r: TaskRef,
)
    requires
        system.wf(),
        system.has(r),
        system.with_references(r, 0).is_releasable(r),
        0 < system.references[r.index()] < usize::MAX,
    ensures
        ({
            let count = system.references[r.index()];
            let given_up = system.with_references(r, (count - 1) as usize);
            let shared = system.with_references(r, (count + 1) as usize);
            &&& !system.is_releasable(r)
            &&& given_up.is_releasable(r) <==> count == 1
            &&& shared.with_references(r, count) == system
        }),
{
    let count = system.references[r.index()];
    let none = system.with_references(r, 0);
    let given_up = system.with_references(r, (count - 1) as usize);
    let shared = system.with_references(r, (count + 1) as usize);
    assert(system.task_wf(r.index()));
    assert(shared.with_references(r, count).references =~= system.references);
    if count == 1 {
        assert(given_up == none);
    }
}

/// Releasing a task takes out the one task, and nothing else.
pub proof fn law_release_takes_one_task<P: Platform>(
    system: SystemView<P>,
    r: TaskRef,
    other: TaskRef,
)
    requires
        system.has(r),
        system.has(other),
        other != r,
    ensures
        !system.without_task(r).has(r),
        system.without_task(r).has(other),
        system.without_task(r).task(other) == system.task(other),
        system.without_task(r).tls[other.index()] == system.tls[other.index()],
        system.without_task(r).task_list == system.task_list,
{
    law_equal_references_name_one_task(r, other);
}

/// Waiting for the end of a task: `phases` are the phases that the waiting goes through, as it looks
/// at the task in the states of `looks`. In between, the run state of the task may take any path.
pub open spec fn is_waiting<P: Platform>(
    looks: Seq<TaskView<P>>,
    paths: Seq<Seq<RunState>>,
    phases: Seq<JoinPhase>,
) -> bool {
    &&& looks.len() > 0
    &&& paths.len() == looks.len() - 1
    &&& phases.len() == looks.len() + 1
    &&& phases[0] == JoinPhase::AwaitExit
    &&& forall|i: int| 0 <= i < looks.len() ==> #[trigger] phases[i + 1]
        == join_next(phases[i], looks[i])
    &&& forall|i: int| 0 <= i < paths.len() ==> {
        &&& (#[trigger] paths[i]).len() > 0
        &&& is_run_state_path(paths[i])
        &&& paths[i].first() == looks[i].runstate
        &&& paths[i].last() == looks[i + 1].runstate
    }
}

/// The waiting passes its first phase only if the task has exited.
proof fn lemma_waiting_for_exit<P: Platform>(
    looks: Seq<TaskView<P>>,
    paths: Seq<Seq<RunState>>,
    phases: Seq<JoinPhase>,
    i: int,
)
    requires
        is_waiting(looks, paths, phases),
        0 <= i < looks.len(),
        phases[i + 1] != JoinPhase::AwaitExit,
    ensures
        looks[i].runstate.is_over(),
    decreases i,
{
    assert(phases[i + 1] == join_next(phases[i], looks[i]));
    if phases[i] != JoinPhase::AwaitExit {
        lemma_waiting_for_exit(looks, paths, phases, i - 1);
        let path = paths[i - 1];
        law_exit_is_permanent(path, 0, path.len() - 1);
    }
}

/// When the waiting for the end of a task ends, the task has exited and runs on no core.
/// Its exit value can then be taken, unless that was done already.
pub proof fn law_joined_tasks_have_stopped<P: Platform>(
    looks: Seq<TaskView<P>>,
    paths: Seq<Seq<RunState>>,
    phases: Seq<JoinPhase>,
    i: int,
)
    requires
        is_waiting(looks, paths, phases),
        0 <= i < looks.len(),
        phases[i] != JoinPhase::Joined,
        phases[i + 1] == JoinPhase::Joined,
    ensures
        looks[i].runstate.is_over(),
        looks[i].running_on_cpu is None,
        looks[i].wf() && looks[i].runstate != RunState::Reaped
            ==> looks[i].reaped_value() is Some,
{
    lemma_waiting_for_exit(looks, paths, phases, i);
    assert(phases[i + 1] == join_next(phases[i], looks[i]));
}

/// A task that has exited and has stopped running is joined within two looks at it.
pub proof fn law_ended_tasks_are_joined<P: Platform>(task: TaskView<P>)
    requires
        task.runstate.is_over(),
        task.running_on_cpu is None,
    ensures
        join_next(
            join_next(JoinPhase::AwaitExit, task),
            task,
        ) == JoinPhase::Joined,
{
}

/// A task never succeeds in joining itself, nor in marking another task as killed.
pub proof fn law_only_sensible_ends<P: Platform>(
    system: SystemView<P>,
    cpu: CpuView,
    current: TaskRef,
    other: TaskRef,
    interrupts_enabled: bool,
)
    requires
        cpu.current() == Some(current),
        other != current,
    ensures
        join_report(cpu, current, interrupts_enabled) is Err,
        killed_report(system, cpu, other) is Err,
{
}

/// A new task inherits the environment, the memory management details, the namespace and the
/// application crate of its parent. So it is an application task if its parent is one.
pub proof fn law_new_tasks_inherit<P: Platform>(
    parent: TaskView<P>,
    id: usize,
    kstack: P::Stack,
    failure_cleanup_function: P::FailureCleanupFunction,
    tls_area: TlsDataImage<P::TlsData>,
)
    ensures
        ({
            let task = inheriting(
                parent,
                id,
                kstack,
                failure_cleanup_function,
                tls_area,
            );
            &&& task.inner.env == parent.inner.env
            &&& task.mmi == parent.mmi
            &&& task.namespace == parent.namespace
            &&& task.app_crate == parent.app_crate
            &&& task.runstate == RunState::Initing
            &&& task.running_on_cpu is None
            &&& !task.joinable
            &&& task.wf()
            &&& task.is_unswitched()
        }),
{
}

/// The states that a new task inherits can be changed by setting them on it: afterwards it has the
/// states that were set, and is a new task in every other respect.
pub proof fn law_inherited_states_can_be_changed<P: Platform>(
    parent: TaskView<P>,
    id: usize,
    kstack: P::Stack,
    failure_cleanup_function: P::FailureCleanupFunction,
    tls_area: TlsDataImage<P::TlsData>,
    env: Arc<P::Environment>,
    mmi: Arc<P::MemoryManagement>,
    namespace: Arc<P::CrateNamespace>,
    app_crate: Option<Arc<P::AppCrate>>,
)
    ensures
        ({
            let task = inheriting(
                parent,
                id,
                kstack,
                failure_cleanup_function,
                tls_area,
            );
            let changed = TaskView {
                app_crate,
                ..TaskView { namespace, ..TaskView { mmi, ..task.with_env(env) } }
            };
            &&& changed == TaskView::<P>::fresh(
                id,
                InnerView::<P>::fresh(kstack, env),
                mmi,
                namespace,
                app_crate,
                failure_cleanup_function,
                tls_area,
            )
            &&& changed.wf()
            &&& changed.is_unswitched()
        }),
{
}

} // verus!
