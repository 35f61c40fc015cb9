//! What holds of every call on a system as a whole and on counted references, told by what goes into the
//! call and what comes out.
use crate::system::{Cpu, CpuView, SystemView, TaskSystem};
use crate::task::{Platform, Task};
use crate::task_ref::{JoinableTaskRef, SharedTaskRef, TaskList, TaskRef, TlsVariables};
use vstd::prelude::*;

verus! {

/// The places in a system from which a task is referred to, or that keep it for another reason.
pub open spec fn is_kept<P: Platform>(system: SystemView<P>, r: TaskRef) -> bool {
    ||| system.references[r.index()] > 0
    ||| system.tasks[r.index()].joinable
    ||| system.tls[r.index()].borrows > 0
    ||| exists|id: usize| #[trigger]
        system.task_list.contains_key(id) && system.task_list[id] == r
    ||| exists|i: int| #[trigger] system.tasks.contains_key(i) && {
        ||| (system.tasks[i].inner.task_local_data is Some
            && system.tasks[i].inner.task_local_data->0.taskref == r)
        ||| (system.tasks[i].inner.drop_after_task_switch is Some
            && system.tasks[i].inner.drop_after_task_switch->0.taskref == r)
        ||| system.tls[i].current_task == Some(r)
    }
}

/// One of the cores uses the TLS area of a task, or tells it as the current one.
pub open spec fn is_used_by_a_core(cores: Seq<&Cpu>, r: TaskRef) -> bool {
    exists|k: int| 0 <= k < cores.len() && {
        ||| (#[trigger] cores[k])@.fs_task == Some(r)
        ||| (cores[k]@.gs_base is Some && cores[k]@.gs_base->0.taskref == r)
        ||| cores[k]@.boot_tls.current_task == Some(r)
    }
}

/// The two notions agree: what keeps a task from being released is a reference to it, or a borrow.
proof fn lemma_kept<P: Platform>(system: SystemView<P>, cores: Seq<&Cpu>, r: TaskRef)
    ensures
        system.is_releasable(r) <==> !is_kept(system, r),
        crate::system::none_refers_to(cores, r) <==> !is_used_by_a_core(cores, r),
{
    if system.is_releasable(r) {
        assert forall|i: int| #[trigger] system.tasks.contains_key(i) implies !{
            ||| (system.tasks[i].inner.task_local_data is Some
                && system.tasks[i].inner.task_local_data->0.taskref == r)
            ||| (system.tasks[i].inner.drop_after_task_switch is Some
                && system.tasks[i].inner.drop_after_task_switch->0.taskref == r)
            ||| system.tls[i].current_task == Some(r)
        } by {
            assert(!system.task_refers_to(i, r));
        }
    }
    if !is_kept(system, r) {
        assert forall|i: int| system.tasks.contains_key(i) implies !(#[trigger]
            system.task_refers_to(i, r)) by {}
    }
    if crate::system::none_refers_to(cores, r) {
        assert forall|k: int| 0 <= k < cores.len() implies !{
            ||| (#[trigger] cores[k])@.fs_task == Some(r)
            ||| (cores[k]@.gs_base is Some && cores[k]@.gs_base->0.taskref == r)
            ||| cores[k]@.boot_tls.current_task == Some(r)
        } by {
            assert(!cores[k]@.refers_to(r));
        }
    }
    if !is_used_by_a_core(cores, r) {
        assert forall|k: int| 0 <= k < cores.len() implies !(#[trigger] cores[k]@.refers_to(
            r,
        )) by {
            let core = cores[k];
        }
    }
}

/// A task is released exactly if nothing keeps it and no core uses it. The task that comes out is the one
/// that was in the system, and nothing but it, its TLS area and its count goes. A refusal changes
/// nothing.
pub proof fn law_release<P: Platform>(r: TaskRef, cores: Vec<&Cpu>)
    ensures
        forall|system: &mut TaskSystem<P>, released: Option<Task<P>>| #[trigger]
            call_ensures(TaskSystem::<P>::release, (system, &r, &cores), released) ==> {
                let before = (*system)@;
                let after = (*final(system))@;
                &&& released is Some <==> !is_kept(before, r) && !is_used_by_a_core(cores@, r)
                &&& released is Some ==> {
                    &&& released->0@ == before.tasks[r.index()]
                    &&& after == SystemView {
                        tasks: before.tasks.remove(r.index()),
                        tls: before.tls.remove(r.index()),
                        references: before.references.remove(r.index()),
                        ..before
                    }
                }
                &&& released is None ==> after == before
            },
{
    assert forall|system: &mut TaskSystem<P>, released: Option<Task<P>>| #[trigger]
        call_ensures(TaskSystem::<P>::release, (system, &r, &cores), released) implies (
    released is Some <==> !is_kept((*system)@, r) && !is_used_by_a_core(cores@, r)) by {
        lemma_kept((*system)@, cores@, r);
    }
}

/// A task that can be released is found exactly if there is one.
pub proof fn law_find_releasable<P: Platform>(
    system: TaskSystem<P>,
    cores: Vec<&Cpu>,
    found: Option<TaskRef>,
    r: TaskRef,
)
    requires
        call_ensures(TaskSystem::<P>::find_releasable, (&system, &cores), found),
    ensures
        found is Some ==> {
            &&& system@.tasks.contains_key(found->0.index())
            &&& !is_kept(system@, found->0)
            &&& !is_used_by_a_core(cores@, found->0)
        },
        found is None && system@.tasks.contains_key(r.index()) ==> is_kept(system@, r)
            || is_used_by_a_core(cores@, r),
{
    lemma_kept(system@, cores@, r);
    if found is Some {
        lemma_kept(system@, cores@, found->0);
    }
    if found is None && system@.tasks.contains_key(r.index()) {
        assert(system@.has(r));
    }
}

/// Sharing a task counts one more reference to it, and changes nothing else.
pub proof fn law_share<P: Platform>(r: TaskRef)
    ensures
        forall|system: &mut TaskSystem<P>, shared: SharedTaskRef| #[trigger]
            call_ensures(TaskSystem::<P>::share, (system, &r), shared)
                && (*system)@.references[r.index()] < usize::MAX ==> {
                let before = (*system)@;
                let after = (*final(system))@;
                &&& shared.task() == r
                &&& after == SystemView {
                    references: before.references.insert(r.index(), after.references[r.index()]),
                    ..before
                }
                &&& after.references[r.index()] == before.references[r.index()] + 1
            },
{
}

/// Giving up a counted reference counts one less. The task goes exactly if this was the last one, nothing
/// else keeps the task, and no core uses it. Nothing else is changed.
pub proof fn law_drop_of_a_shared_reference<P: Platform>(shared: SharedTaskRef, cores: Vec<&Cpu>)
    ensures
        forall|system: &mut TaskSystem<P>, released: Option<Task<P>>| #[trigger]
            call_ensures(SharedTaskRef::drop::<P>, (shared, system, &cores), released)
                && (*system)@.references[shared.task().index()] > 0 ==> {
                let before = (*system)@;
                let after = (*final(system))@;
                let r = shared.task();
                let count = (before.references[r.index()] - 1) as usize;
                let counted = SystemView {
                    references: before.references.insert(r.index(), count),
                    ..before
                };
                &&& released is Some <==> !is_kept(counted, r) && !is_used_by_a_core(cores@, r)
                &&& released is Some ==> {
                    &&& before.references[r.index()] == 1
                    &&& released->0@ == before.tasks[r.index()]
                    &&& after == SystemView {
                        tasks: counted.tasks.remove(r.index()),
                        tls: counted.tls.remove(r.index()),
                        references: counted.references.remove(r.index()),
                        ..counted
                    }
                }
                &&& released is None ==> after == counted
            },
{
    assert forall|system: &mut TaskSystem<P>, released: Option<Task<P>>| #[trigger]
        call_ensures(SharedTaskRef::drop::<P>, (shared, system, &cores), released)
            && (*system)@.references[shared.task().index()] > 0 implies ({
        let r = shared.task();
        let counted = SystemView {
            references: (*system)@.references.insert(
                r.index(),
                ((*system)@.references[r.index()] - 1) as usize,
            ),
            ..(*system)@
        };
        released is Some <==> !is_kept(counted, r) && !is_used_by_a_core(cores@, r)
    }) by {
        let r = shared.task();
        let counted = SystemView {
            references: (*system)@.references.insert(
                r.index(),
                ((*system)@.references[r.index()] - 1) as usize,
            ),
            ..(*system)@
        };
        lemma_kept(counted, cores@, r);
    }
}

/// What is told of a system is what it holds.
pub proof fn law_system_getters<P: Platform>(system: TaskSystem<P>, r: TaskRef)
    ensures
        forall|has: bool| #[trigger]
            call_ensures(TaskSystem::<P>::has, (&system, &r), has) ==> (has
                <==> system@.tasks.contains_key(r.index())),
        forall|task: &Task<P>| #[trigger]
            call_ensures(TaskSystem::<P>::task, (&system, &r), task) ==> task@
                == system@.tasks[r.index()],
        forall|list: &TaskList| #[trigger]
            call_ensures(TaskSystem::<P>::task_list, (&system,), list) ==> list@
                == system@.task_list,
        forall|references: usize| #[trigger]
            call_ensures(TaskSystem::<P>::references, (&system, &r), references) ==> references
                == system@.references[r.index()],
{
}

/// A joinable or counted reference leads to the task that it was made for.
pub proof fn law_references_lead_to_their_tasks(joinable: JoinableTaskRef, shared: SharedTaskRef)
    ensures
        forall|task: &TaskRef| #[trigger]
            call_ensures(<JoinableTaskRef as std::ops::Deref>::deref, (&joinable,), task) ==> *task
                == joinable.task(),
        forall|task: &TaskRef| #[trigger]
            call_ensures(<SharedTaskRef as std::ops::Deref>::deref, (&shared,), task) ==> *task
                == shared.task(),
{
}

/// A new system has no tasks, an empty task list, and hands out the ID zero first. A new core has no
/// current task, in either way to tell it.
pub proof fn law_new_system<P: Platform>(
    pages: usize,
    system: TaskSystem<P>,
    fs_base: u64,
    cpu: Cpu,
    vars: TlsVariables,
)
    requires
        call_ensures(TaskSystem::<P>::new, (pages,), system),
        call_ensures(Cpu::new, (fs_base,), cpu),
        call_ensures(TlsVariables::new, (), vars),
    ensures
        system@.tasks == Map::<int, crate::task::TaskView<P>>::empty(),
        system@.tls == Map::<int, TlsVariables>::empty(),
        system@.references == Map::<int, usize>::empty(),
        system@.task_list == Map::<usize, TaskRef>::empty(),
        system@.slots == 0,
        system@.next_task_id == 0,
        system@.kernel_stack_size_in_pages == pages,
        vars == (TlsVariables { current_task_id: 0, current_task: None, borrows: 0 }),
        cpu@ == (CpuView { fs_task: None, fs_base, gs_base: None, boot_tls: vars }),
        forall|base: u64| #[trigger] call_ensures(Cpu::fs_base, (&cpu,), base) ==> base == fs_base,
{
}

} // verus!
