//! Switching a core from one task to another.
use crate::address::has_virtual_form;
use crate::current::{deinit_current_task, deinit_tls};
use crate::system::{lemma_same_active_tls, lemma_with_task_wf, Cpu, CpuView, SystemView, TaskSystem};
use crate::task::{InnerView, Platform, SimdExt, Task, TaskView};
use crate::task_ref::{TaskRef, TlsVariables};
use vstd::prelude::*;

verus! {

/// The context switch routines. Each saves the registers that the previous task uses,
/// and restores those that the next task uses.
#[derive(Copy, Clone, Debug, PartialEq, Eq, Structural)]
pub enum ContextSwitchRoutine {
    Regular,
    RegularToSse,
    RegularToAvx,
    SseToRegular,
    Sse,
    SseToAvx,
    AvxToRegular,
    AvxToSse,
    Avx,
}

impl ContextSwitchRoutine {
    /// The level of SIMD extensions whose registers the routine saves.
    pub open spec fn saves(self) -> SimdExt {
        match self {
            ContextSwitchRoutine::Regular => SimdExt::Regular,
            ContextSwitchRoutine::RegularToSse => SimdExt::Regular,
            ContextSwitchRoutine::RegularToAvx => SimdExt::Regular,
            ContextSwitchRoutine::SseToRegular => SimdExt::SSE,
            ContextSwitchRoutine::Sse => SimdExt::SSE,
            ContextSwitchRoutine::SseToAvx => SimdExt::SSE,
            ContextSwitchRoutine::AvxToRegular => SimdExt::AVX,
            ContextSwitchRoutine::AvxToSse => SimdExt::AVX,
            ContextSwitchRoutine::Avx => SimdExt::AVX,
        }
    }

    /// The level of SIMD extensions whose registers the routine restores.
    pub open spec fn restores(self) -> SimdExt {
        match self {
            ContextSwitchRoutine::Regular => SimdExt::Regular,
            ContextSwitchRoutine::RegularToSse => SimdExt::SSE,
            ContextSwitchRoutine::RegularToAvx => SimdExt::AVX,
            ContextSwitchRoutine::SseToRegular => SimdExt::Regular,
            ContextSwitchRoutine::Sse => SimdExt::SSE,
            ContextSwitchRoutine::SseToAvx => SimdExt::AVX,
            ContextSwitchRoutine::AvxToRegular => SimdExt::Regular,
            ContextSwitchRoutine::AvxToSse => SimdExt::SSE,
            ContextSwitchRoutine::Avx => SimdExt::AVX,
        }
    }

    /// Returns the routine for the levels of SIMD extensions of the previous and the next task.
    pub fn between(prev: SimdExt, next: SimdExt) -> (routine: ContextSwitchRoutine)
        ensures
            routine.saves() == prev,
            routine.restores() == next,
    {
        match (prev, next) {
            (SimdExt::Regular, SimdExt::Regular) => ContextSwitchRoutine::Regular,
            (SimdExt::Regular, SimdExt::SSE) => ContextSwitchRoutine::RegularToSse,
            (SimdExt::Regular, SimdExt::AVX) => ContextSwitchRoutine::RegularToAvx,
            (SimdExt::SSE, SimdExt::Regular) => ContextSwitchRoutine::SseToRegular,
            (SimdExt::SSE, SimdExt::SSE) => ContextSwitchRoutine::Sse,
            (SimdExt::SSE, SimdExt::AVX) => ContextSwitchRoutine::SseToAvx,
            (SimdExt::AVX, SimdExt::Regular) => ContextSwitchRoutine::AvxToRegular,
            (SimdExt::AVX, SimdExt::SSE) => ContextSwitchRoutine::AvxToSse,
            (SimdExt::AVX, SimdExt::AVX) => ContextSwitchRoutine::Avx,
        }
    }
}

/// The context switch that completes a task switch.
#[derive(Copy, Clone)]
pub struct ContextSwitch {
    /// The task whose stack pointer is to be saved.
    pub prev: TaskRef,
    /// The stack pointer to continue with.
    pub next_saved_sp: usize,
    /// The routine that performs the context switch.
    pub routine: ContextSwitchRoutine,
}

/// What comes of a request to switch tasks.
pub enum TaskSwitch<G> {
    /// The next task is the current one already, so that there is nothing to switch.
    /// The preemption guard of the request is returned.
    Unneeded(G),
    /// The next task is now the current one, and the given context switch is to be performed.
    /// The preemption guard of the request was left with the next task.
    Switch(ContextSwitch),
}

/// The previous task after a task switch: it runs nowhere, and if it has exited,
/// it has no local data any more.
pub open spec fn prev_after_switch<P: Platform>(
    prev: TaskView<P>,
) -> TaskView<P> {
    if prev.runstate.is_over() {
        prev.with_cpu(None).with_local_data(None)
    } else {
        prev.with_cpu(None)
    }
}

/// The next task after a task switch: it runs on the core, it holds the preemption guard,
/// and it holds the local data of an exited previous task for dropping them later.
pub open spec fn next_after_switch<P: Platform>(
    prev: TaskView<P>,
    next: TaskView<P>,
    apic_id: u8,
    preemption_guard: P::PreemptionGuard,
) -> TaskView<P> {
    TaskView {
        running_on_cpu: Some(apic_id),
        inner: InnerView {
            preemption_guard: Some(preemption_guard),
            drop_after_task_switch: if prev.runstate.is_over() {
                prev.inner.task_local_data
            } else {
                next.inner.drop_after_task_switch
            },
            ..next.inner
        },
        ..next
    }
}

/// The variables in the TLS area that was active before a task switch: if the previous task has
/// exited, they do not tell an exited task any more.
pub open spec fn tls_after_switch<P: Platform>(
    system: SystemView<P>,
    cpu: CpuView,
    prev: TaskRef,
) -> TlsVariables {
    if system.task(prev).runstate.is_over() {
        deinit_tls(system, cpu)
    } else {
        system.active_tls(cpu)
    }
}

/// The system after a task switch.
pub open spec fn system_after_switch<P: Platform>(
    system: SystemView<P>,
    cpu: CpuView,
    prev: TaskRef,
    next: TaskRef,
    apic_id: u8,
    preemption_guard: P::PreemptionGuard,
) -> SystemView<P> {
    system.with_task(prev, prev_after_switch(system.task(prev))).with_task(
        next,
        next_after_switch(system.task(prev), system.task(next), apic_id, preemption_guard),
    ).with_active_tls(cpu, tls_after_switch(system, cpu, prev))
}

/// The registers of the core after a task switch.
pub open spec fn cpu_after_switch<P: Platform>(
    system: SystemView<P>,
    cpu: CpuView,
    prev: TaskRef,
    next: TaskRef,
) -> CpuView {
    system.cpu_running(cpu.with_active_tls(tls_after_switch(system, cpu, prev)), next)
}

impl<P: Platform> Task<P> {
    /// Switches a core from the task `prev` to the task `next`, up to the context switch itself.
    ///
    /// There is no need to switch if both have the same ID. Otherwise the core that has the ID
    /// `apic_id` now has `next` as its current task, and it remains to perform the context switch
    /// that is returned. After that, the task that the core continues with retrieves
    /// its preemption guard by `post_context_switch_action`.
    pub fn task_switch(
        system: &mut TaskSystem<P>,
        cpu: &mut Cpu,
        prev: &TaskRef,
        next: TaskRef,
        apic_id: u8,
        preemption_guard: P::PreemptionGuard,
    ) -> (switch: TaskSwitch<P::PreemptionGuard>)
        requires
            old(system)@.wf(),
            old(system)@.cpu_wf(old(cpu)@),
            old(system)@.has(*prev),
            old(system)@.has(next),
            old(system)@.task(*prev).id != old(system)@.task(next).id
                ==> has_virtual_form(
                old(system)@.task(next).tls_area.pointer_value as u64,
            ),
        ensures
            if old(system)@.task(*prev).id == old(system)@.task(next).id {
                &&& switch == TaskSwitch::Unneeded(preemption_guard)
                &&& final(system)@ == old(system)@
                &&& final(cpu)@ == old(cpu)@
            } else {
                &&& switch matches TaskSwitch::Switch(context) && {
                    &&& context.prev == *prev
                    &&& context.next_saved_sp == old(system)@.task(next).inner.saved_sp
                    &&& context.routine.saves() == old(system)@.task(*prev).simd
                    &&& context.routine.restores() == old(system)@.task(next).simd
                }
                &&& final(system)@ == system_after_switch(
                    old(system)@,
                    old(cpu)@,
                    *prev,
                    next,
                    apic_id,
                    preemption_guard,
                )
                &&& final(cpu)@ == cpu_after_switch(old(system)@, old(cpu)@, *prev, next)
            },
            old(system)@.stays_valid_as(final(system)@),
            final(system)@.cpu_wf(final(cpu)@),
    {
        // No need to switch if the next task is the same as the current task.
        if system.task(prev).task_id() == system.task(&next).task_id() {
            return TaskSwitch::Unneeded(preemption_guard);
        }
        let ghost before = system@;
        let ghost core = cpu@;
        proof {
            lemma_same_active_tls(before, core);
            lemma_switch_is_valid(before, core, *prev, next, apic_id, preemption_guard);
        }

        // If the previous task has exited, its local data, which hold a reference to itself, are
        // stored in the next task, so that they are dropped after the context switch.
        if system.task(prev).has_exited() {
            let _ = deinit_current_task(system, cpu);
            let data = system.task_mut(prev).take_local_data();
            system.task_mut(&next).set_drop_after_task_switch(data);
        }

        // Move the preemption guard into the next task, so that it can be retrieved
        // after the context switch.
        system.task_mut(&next).set_preemption_guard(preemption_guard);
        system.task_mut(prev).set_running_on_cpu(None);
        system.task_mut(&next).set_running_on_cpu(Some(apic_id));
        proof {
            let after = system_after_switch(
                before,
                core,
                *prev,
                next,
                apic_id,
                preemption_guard,
            );
            assert(system@.task(*prev) == after.task(*prev));
            assert(system@.task(next) == after.task(next));
            assert(system@.tasks =~= after.tasks);
            assert(system@.tls =~= after.tls);
            assert(system@ =~= after);
        }
        next.set_as_current_task(system, cpu);

        let next_saved_sp = system.task(&next).saved_sp();
        let routine = ContextSwitchRoutine::between(
            system.task(prev).simd_level(),
            system.task(&next).simd_level(),
        );
        TaskSwitch::Switch(ContextSwitch { prev: *prev, next_saved_sp, routine })
    }
}

/// A task switch keeps the system valid.
proof fn lemma_switch_is_valid<P: Platform>(
    system: SystemView<P>,
    cpu: CpuView,
    prev: TaskRef,
    next: TaskRef,
    apic_id: u8,
    preemption_guard: P::PreemptionGuard,
)
    requires
        system.wf(),
        system.cpu_wf(cpu),
        system.has(prev),
        system.has(next),
        prev.index() != next.index(),
    ensures
        system.stays_valid_as(
            system_after_switch(system, cpu, prev, next, apic_id, preemption_guard),
        ),
        system_after_switch(system, cpu, prev, next, apic_id, preemption_guard).cpu_wf(
            cpu.with_active_tls(tls_after_switch(system, cpu, prev)),
        ),
{
    let after = system_after_switch(system, cpu, prev, next, apic_id, preemption_guard);
    assert(system.task_wf(prev.index()));
    assert(system.task_wf(next.index()));
    if let Some(r) = cpu.fs_task {
        assert(system.task_wf(r.index()));
    }
    assert forall|i: int| after.tasks.contains_key(i) implies #[trigger] after.task_wf(i) by {
        assert(system.task_wf(i));
    }
}

impl TaskRef {
    /// Performs the actions needed after a context switch to the task.
    /// See `Task::post_context_switch_action`.
    pub fn post_context_switch_action<P: Platform>(&self, system: &mut TaskSystem<P>) -> (guard:
        P::PreemptionGuard)
        requires
            old(system)@.wf(),
            old(system)@.has(*self),
            old(system)@.task(*self).inner.preemption_guard is Some,
        ensures
            Some(guard) == old(system)@.task(*self).inner.preemption_guard,
            final(system)@ == old(system)@.with_task(
                *self,
                old(system)@.task(*self).after_context_switch(),
            ),
            old(system)@.stays_valid_as(final(system)@),
    {
        proof {
            assert(system@.task_wf(self.index()));
            lemma_with_task_wf(system@, *self, system@.task(*self).after_context_switch());
        }
        system.task_mut(self).post_context_switch_action()
    }

    /// Returns the place where the stack pointer of the task is saved by a context switch
    /// to another task.
    pub fn saved_sp<'a, P: Platform>(&self, system: &'a mut TaskSystem<P>) -> (sp: &'a mut usize)
        requires
            old(system)@.wf(),
            old(system)@.has(*self),
        ensures
            *sp == old(system)@.task(*self).inner.saved_sp,
            final(system)@ == old(system)@.with_task(
                *self,
                old(system)@.task(*self).with_saved_sp(*final(sp)),
            ),
            old(system)@.stays_valid_as(final(system)@),
    {
        proof {
            assert forall|value: usize| #[trigger]
                system@.stays_valid_as(
                    system@.with_task(*self, system@.task(*self).with_saved_sp(value)),
                ) by {
                assert(system@.task_wf(self.index()));
                lemma_with_task_wf(system@, *self, system@.task(*self).with_saved_sp(value));
            }
        }
        system.task_mut(self).saved_sp_mut()
    }
}

} // verus!
