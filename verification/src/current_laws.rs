//! What holds of every call that tells, sets or takes away the current task, or that finds a task,
//! told by what goes into the call and what comes out.
use crate::current::{
    borrow_current_task, deinit_current_task, get_current_task, get_my_current_task,
    get_my_current_task_id, get_task, init_current_task, set_kill_handler, take_kill_handler,
    with_current_task, CurrentTaskBorrow, NO_CURRENT_TASK,
};
use crate::run_state::RunState;
use crate::system::{get_task_local_data, Cpu, CpuView, SystemView, TaskSystem};
use crate::task::{InnerView, Platform, TaskView};
use crate::task_ref::{TaskList, TaskLocalData, TaskRef, TlsVariables};
use vstd::prelude::*;

verus! {

/// The variables in the TLS area that a core uses: that of a task, or else the one it started with.
pub open spec fn variables_of<P: Platform>(system: SystemView<P>, cpu: CpuView) -> TlsVariables {
    if cpu.fs_task is Some {
        system.tls[cpu.fs_task->0.index()]
    } else {
        cpu.boot_tls
    }
}

/// Between two states, the variables in the TLS area that the core uses came to be `vars`, and nothing
/// else of the system and of the core was changed.
pub open spec fn only_variables_changed<P: Platform>(
    system: SystemView<P>,
    cpu: CpuView,
    after: SystemView<P>,
    core: CpuView,
    vars: TlsVariables,
) -> bool {
    if cpu.fs_task is Some {
        &&& after == SystemView { tls: system.tls.insert(cpu.fs_task->0.index(), vars), ..system }
        &&& core == cpu
    } else {
        &&& after == system
        &&& core == CpuView { boot_tls: vars, ..cpu }
    }
}

/// A task is found by an ID exactly if the task list has one under it.
pub proof fn law_get_task<P: Platform>(
    system: TaskSystem<P>,
    task_id: usize,
    task: Option<TaskRef>,
)
    requires
        call_ensures(get_task::<P>, (&system, task_id), task),
    ensures
        task is Some <==> system@.task_list.contains_key(task_id),
        task matches Some(r) ==> r == system@.task_list[task_id],
{
}

/// The current task by the register is the one of the local data that the register points to.
pub proof fn law_get_my_current_task(
    cpu: Cpu,
    task: Option<TaskRef>,
    data: Option<&TaskLocalData>,
)
    requires
        call_ensures(get_my_current_task, (&cpu,), task),
        call_ensures(get_task_local_data, (&cpu,), data),
    ensures
        task is Some <==> cpu@.gs_base is Some,
        data is Some <==> cpu@.gs_base is Some,
        task matches Some(r) ==> r == cpu@.gs_base->0.taskref && data->0.taskref == r,
        data matches Some(d) ==> *d == cpu@.gs_base->0,
{
}

/// The current task by the TLS area, and its ID, are those that the active area holds.
pub proof fn law_get_current_task<P: Platform>(
    system: TaskSystem<P>,
    cpu: Cpu,
    task: Option<TaskRef>,
    id: Option<usize>,
)
    requires
        call_ensures(get_current_task::<P>, (&system, &cpu), task),
        call_ensures(get_my_current_task_id::<P>, (&system, &cpu), id),
    ensures
        task == variables_of(system@, cpu@).current_task,
        id == Some(variables_of(system@, cpu@).current_task_id),
{
}

/// A function that is to be called with the current task is called exactly if there is one,
/// with that one, and its result is the result.
pub proof fn law_with_current_task<P: Platform, F: FnOnce(&TaskRef) -> R, R>(
    system: TaskSystem<P>,
    cpu: Cpu,
    function: F,
    result: Result<R, ()>,
)
    requires
        call_ensures(with_current_task::<P, F, R>, (&system, &cpu, function), result),
    ensures
        result is Ok <==> variables_of(system@, cpu@).current_task is Some,
        result matches Ok(value) ==> call_ensures(
            function,
            (&variables_of(system@, cpu@).current_task->0,),
            value,
        ),
{
}

/// A kill handler is registered exactly if the register tells a current task, for that task, in place of
/// any other one. Nothing else is changed.
pub proof fn law_set_kill_handler<P: Platform>(cpu: Cpu, function: P::KillHandler)
    ensures
        forall|system: &mut TaskSystem<P>, result: Result<(), &'static str>| #[trigger]
            call_ensures(set_kill_handler::<P>, (system, &cpu, function), result) ==> {
                let before = (*system)@;
                let after = (*final(system))@;
                let r = cpu@.gs_base->0.taskref;
                let task = before.tasks[r.index()];
                &&& result is Ok <==> cpu@.gs_base is Some
                &&& result is Err ==> {
                    &&& result == Err::<(), &'static str>(NO_CURRENT_TASK)
                    &&& after == before
                }
                &&& result is Ok ==> after == SystemView {
                    tasks: before.tasks.insert(
                        r.index(),
                        TaskView {
                            inner: InnerView { kill_handler: Some(function), ..task.inner },
                            ..task
                        },
                    ),
                    ..before
                }
            },
{
}

/// The kill handler is taken from the task that the active TLS area tells, if it tells one. Afterwards
/// that task has none. Nothing else is changed.
pub proof fn law_take_kill_handler<P: Platform>(cpu: Cpu)
    ensures
        forall|system: &mut TaskSystem<P>, handler: Option<P::KillHandler>| #[trigger]
            call_ensures(take_kill_handler::<P>, (system, &cpu), handler) ==> {
                let before = (*system)@;
                let after = (*final(system))@;
                let told = variables_of(before, cpu@).current_task;
                let task = before.tasks[told->0.index()];
                &&& told is None ==> handler is None && after == before
                &&& told is Some ==> {
                    &&& handler == task.inner.kill_handler
                    &&& after == SystemView {
                        tasks: before.tasks.insert(
                            told->0.index(),
                            TaskView {
                                inner: InnerView { kill_handler: None, ..task.inner },
                                ..task
                            },
                        ),
                        ..before
                    }
                }
            },
{
}

/// The kill handler that was registered is the one that is taken next, where both ways to tell the current
/// task agree.
pub proof fn law_registered_handler_is_taken<P: Platform>(
    cpu: Cpu,
    function: P::KillHandler,
    r: TaskRef,
)
    ensures
        forall|
            first: &mut TaskSystem<P>,
            second: &mut TaskSystem<P>,
            third: &mut TaskSystem<P>,
            set: Result<(), &'static str>,
            taken: Option<P::KillHandler>,
            again: Option<P::KillHandler>,
        |
            #![trigger call_ensures(set_kill_handler::<P>, (first, &cpu, function), set), call_ensures(take_kill_handler::<P>, (second, &cpu), taken), call_ensures(take_kill_handler::<P>, (third, &cpu), again)]
            call_ensures(set_kill_handler::<P>, (first, &cpu, function), set) && call_ensures(
                take_kill_handler::<P>,
                (second, &cpu),
                taken,
            ) && call_ensures(take_kill_handler::<P>, (third, &cpu), again) && *second == *final(
                first
            ) && *third == *final(second) && (cpu@.gs_base matches Some(data) && data.taskref == r)
                && variables_of((*first)@, cpu@).current_task == Some(r) ==> {
                &&& taken == Some(function)
                &&& again is None
            },
{
}

/// A task is set as the current one exactly if the active TLS area tells none, is not borrowed, and there
/// is a task to be set: the given one if it has the given ID, or else, where none is given, the one
/// that the task list has under this ID. It does not matter what state the task is in. The area tells
/// the task and the ID then, and nothing else is changed. A failure changes nothing.
pub proof fn law_init_current_task<P: Platform>(
    current_task_id: usize,
    current_task: Option<TaskRef>,
)
    ensures
        forall|system: &mut TaskSystem<P>, cpu: &mut Cpu, result: Result<TaskRef, ()>| #[trigger]
            call_ensures(
                init_current_task::<P>,
                (system, cpu, current_task_id, current_task),
                result,
            ) ==> {
                let before = (*system)@;
                let vars = variables_of(before, (*cpu)@);
                let free = vars.current_task is None && vars.borrows == 0;
                &&& current_task is None ==> {
                    &&& result is Ok <==> free && before.task_list.contains_key(current_task_id)
                    &&& result matches Ok(r) ==> r == before.task_list[current_task_id]
                }
                &&& current_task matches Some(given) ==> {
                    &&& result is Ok <==> free && before.tasks[given.index()].id
                        == current_task_id
                    &&& result matches Ok(r) ==> r == given
                }
                &&& result matches Ok(r) ==> only_variables_changed(
                    before,
                    (*cpu)@,
                    (*final(system))@,
                    (*final(cpu))@,
                    TlsVariables { current_task_id, current_task: Some(r), borrows: 0 },
                )
                &&& result is Err ==> (*final(system))@ == before && (*final(cpu))@ == (*cpu)@
            },
{
}

/// The current task is taken away exactly if the active TLS area tells one, it is over, and it is not
/// borrowed. The area tells none then, and still the same ID. A failure changes nothing.
pub proof fn law_deinit_current_task<P: Platform>()
    ensures
        forall|system: &mut TaskSystem<P>, cpu: &mut Cpu, result: Result<TaskRef, ()>| #[trigger]
            call_ensures(deinit_current_task::<P>, (system, cpu), result) && (*system)@.wf()
                && (*system)@.cpu_wf((*cpu)@) ==> {
                let before = (*system)@;
                let vars = variables_of(before, (*cpu)@);
                let state = before.tasks[vars.current_task->0.index()].runstate;
                &&& result is Ok <==> {
                    &&& vars.current_task is Some
                    &&& state == RunState::Exited || state == RunState::Reaped
                    &&& vars.borrows == 0
                }
                &&& result matches Ok(r) ==> {
                    &&& vars.current_task == Some(r)
                    &&& only_variables_changed(
                        before,
                        (*cpu)@,
                        (*final(system))@,
                        (*final(cpu))@,
                        TlsVariables { current_task: None, ..vars },
                    )
                }
                &&& result is Err ==> (*final(system))@ == before && (*final(cpu))@ == (*cpu)@
            },
{
    assert forall|system: &mut TaskSystem<P>, cpu: &mut Cpu, result: Result<TaskRef, ()>| #[trigger]
        call_ensures(deinit_current_task::<P>, (system, cpu), result) && (*system)@.wf()
            && (*system)@.cpu_wf((*cpu)@) && (*cpu)@.fs_task is Some implies (
    *system)@.tls.insert(
        (*cpu)@.fs_task->0.index(),
        (*system)@.tls[(*cpu)@.fs_task->0.index()],
    ) == (*system)@.tls by {
        assert((*system)@.task_wf((*cpu)@.fs_task->0.index()));
        assert((*system)@.tls.insert(
            (*cpu)@.fs_task->0.index(),
            (*system)@.tls[(*cpu)@.fs_task->0.index()],
        ) =~= (*system)@.tls);
    }
}

/// What was set as the current task is told as the current task, under the ID that it was set with.
/// It is not replaced by another attempt to set one.
pub proof fn law_set_current_task_is_told<P: Platform>(
    id: usize,
    task: Option<TaskRef>,
    other_id: usize,
    other_task: Option<TaskRef>,
)
    ensures
        forall|
            first: &mut TaskSystem<P>,
            second: &mut TaskSystem<P>,
            cpu: &mut Cpu,
            core: &mut Cpu,
            set: Result<TaskRef, ()>,
            again: Result<TaskRef, ()>,
            told: Option<TaskRef>,
            told_id: Option<usize>,
        |
            #![trigger call_ensures(init_current_task::<P>, (first, cpu, id, task), set), call_ensures(init_current_task::<P>, (second, core, other_id, other_task), again), call_ensures(get_current_task::<P>, (&*final(second), &*final(core)), told), call_ensures(get_my_current_task_id::<P>, (&*final(second), &*final(core)), told_id)]
            call_ensures(init_current_task::<P>, (first, cpu, id, task), set) && call_ensures(
                init_current_task::<P>,
                (second, core, other_id, other_task),
                again,
            ) && call_ensures(get_current_task::<P>, (&*final(second), &*final(core)), told)
                && call_ensures(
                get_my_current_task_id::<P>,
                (&*final(second), &*final(core)),
                told_id,
            ) && *second == *final(first) && *core == *final(cpu) && set is Ok ==> {
                &&& again is Err
                &&& told == Some(set->Ok_0)
                &&& told_id == Some(id)
            },
{
}

/// The current task is borrowed exactly if the active TLS area tells one, as long as the count of borrows
/// has room. The count goes up by one, and nothing else is changed.
pub proof fn law_borrow_current_task<P: Platform>()
    ensures
        forall|system: &mut TaskSystem<P>, cpu: &mut Cpu, borrow: Option<CurrentTaskBorrow>|
         #[trigger]
            call_ensures(borrow_current_task::<P>, (system, cpu), borrow) ==> {
                let before = (*system)@;
                let vars = variables_of(before, (*cpu)@);
                &&& borrow is Some <==> vars.current_task is Some && vars.borrows < usize::MAX
                &&& borrow matches Some(b) ==> {
                    &&& vars.current_task == Some(b.task())
                    &&& b.area() == (*cpu)@.fs_task
                    &&& only_variables_changed(
                        before,
                        (*cpu)@,
                        (*final(system))@,
                        (*final(cpu))@,
                        TlsVariables { borrows: (vars.borrows + 1) as usize, ..vars },
                    )
                }
                &&& borrow is None ==> (*final(system))@ == before && (*final(cpu))@ == (*cpu)@
            },
{
}

/// The end of a borrow takes the count of the area that it came from down by one, and changes nothing else.
pub proof fn law_end_of_borrow<P: Platform>(borrow: CurrentTaskBorrow)
    ensures
        forall|system: &mut TaskSystem<P>, cpu: &mut Cpu| #[trigger]
            call_ensures(CurrentTaskBorrow::end::<P>, (borrow, system, cpu), ()) ==> {
                let before = (*system)@;
                let core = CpuView { fs_task: borrow.area(), ..(*cpu)@ };
                let vars = variables_of(before, core);
                only_variables_changed(
                    before,
                    core,
                    (*final(system))@,
                    CpuView { fs_task: borrow.area(), ..(*final(cpu))@ },
                    TlsVariables { borrows: (vars.borrows - 1) as usize, ..vars },
                ) && (*final(cpu))@.fs_task == (*cpu)@.fs_task
            },
        forall|task: &TaskRef| #[trigger]
            call_ensures(CurrentTaskBorrow::get, (&borrow,), task) ==> *task == borrow.task(),
{
}

/// A list finds under an ID what was put there last, and nothing after it was removed. Putting and
/// removing tell what was there before, and leave other IDs alone.
pub proof fn law_task_list(list: TaskList, id: usize, task: TaskRef)
    ensures
        forall|found: Option<TaskRef>| #[trigger]
            call_ensures(TaskList::get, (&list, id), found) ==> {
                &&& found is Some <==> list@.contains_key(id)
                &&& found is Some ==> found->0 == list@[id]
            },
        forall|it: &mut TaskList, replaced: Option<TaskRef>| #[trigger]
            call_ensures(TaskList::insert, (it, id, task), replaced) ==> {
                &&& (*final(it))@ == (*it)@.insert(id, task)
                &&& replaced is Some <==> (*it)@.contains_key(id)
                &&& replaced is Some ==> replaced->0 == (*it)@[id]
            },
        forall|it: &mut TaskList, removed: Option<TaskRef>| #[trigger]
            call_ensures(TaskList::remove, (it, id), removed) ==> {
                &&& (*final(it))@ == (*it)@.remove(id)
                &&& removed is Some <==> (*it)@.contains_key(id)
                &&& removed is Some ==> removed->0 == (*it)@[id]
            },
        forall|empty: TaskList| #[trigger]
            call_ensures(TaskList::new, (), empty) ==> empty@ == Map::<usize, TaskRef>::empty(),
        forall|ids: Vec<usize>, i: int, j: int|
            #![trigger call_ensures(TaskList::ids, (&list,), ids), ids@[i], ids@[j]]
            call_ensures(TaskList::ids, (&list,), ids) && 0 <= i < j < ids@.len() ==> ids@[i]
                < ids@[j],
        forall|ids: Vec<usize>, k: usize|
            #![trigger call_ensures(TaskList::ids, (&list,), ids), ids@.contains(k)]
            call_ensures(TaskList::ids, (&list,), ids) ==> (ids@.contains(k)
                <==> list@.contains_key(k)),
{
}

/// Putting a task on the task list puts it there under its own ID, and tells what was there before.
/// Nothing else is changed.
pub proof fn law_add_to_task_list<P: Platform>(r: TaskRef)
    ensures
        forall|system: &mut TaskSystem<P>, replaced: Option<TaskRef>| #[trigger]
            call_ensures(TaskSystem::<P>::add_to_task_list, (system, &r), replaced) ==> {
                let before = (*system)@;
                let id = before.tasks[r.index()].id;
                &&& (*final(system))@ == SystemView {
                    task_list: before.task_list.insert(id, r),
                    ..before
                }
                &&& replaced is Some <==> before.task_list.contains_key(id)
                &&& replaced is Some ==> replaced->0 == before.task_list[id]
            },
{
}

} // verus!
