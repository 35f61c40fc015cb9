//! The first task of each core.
use crate::address::{has_virtual_form, sign_extended};
use crate::current::{get_my_current_task, init_current_task};
use crate::lifecycle::with_new_task;
use crate::run_state::RunState;
use crate::system::{Cpu, CpuView, SystemView, TaskSystem};
use crate::task::{InnerView, Platform, Task, TaskView, TlsDataImage};
use crate::task_ref::{JoinableTaskRef, TaskLocalData, TaskRef, TlsVariables};
use crate::text::{append_decimal, decimal};
use std::mem::ManuallyDrop;
use std::sync::Arc;
use vstd::prelude::*;

verus! {

/// The error of bootstrapping a task where there is no initial kernel namespace.
pub const NO_INITIAL_NAMESPACE: &'static str =
    "The initial kernel CrateNamespace must be initialized before the tasking subsystem.";

/// The error of a core that does not tell the bootstrapped task as its current one.
pub const NOT_THE_CURRENT_TASK: &'static str =
    "BUG: bootstrap_task(): failed to properly set the new bootstrapped task as the current task";

/// The error of a TLS area where the bootstrapped task cannot be set as the current one.
pub const CURRENT_TASK_NOT_SET: &'static str =
    "BUG: bootstrap_task(): failed to set bootstrapped task as current task";

/// The error of a bootstrapped task whose ID was on the task list already.
pub const ID_ALREADY_LISTED: &'static str =
    "BUG: bootstrap_task(): TASKLIST already contained a task with the new bootstrap_task's ID";

/// A task that was bootstrapped on the core `apic_id`: it is runnable,
/// runs on this core, and can run only there.
pub open spec fn bootstrapped<P: Platform>(
    task: TaskView<P>,
    apic_id: u8,
) -> TaskView<P> {
    TaskView {
        name: "bootstrap_task_core_"@ + decimal(apic_id as nat),
        runstate: RunState::Runnable,
        running_on_cpu: Some(apic_id),
        inner: InnerView { pinned_core: Some(apic_id), ..task.inner },
        ..task
    }
}

/// The system after a task was bootstrapped and got the reference `r`: the task is on the list, and
/// the variables in its TLS area tell it as the current task. It is joinable, unless there was
/// another task on the list under its ID.
pub open spec fn system_after_bootstrap<P: Platform>(
    system: SystemView<P>,
    task: TaskView<P>,
    r: TaskRef,
) -> SystemView<P> {
    let joinable = !system.task_list.contains_key(task.id);
    let with_task = with_new_task(system.with_next_id(), task, r);
    SystemView {
        tasks: with_task.tasks.insert(r.index(), with_task.task(r).with_joinable(joinable)),
        tls: with_task.tls.insert(
            r.index(),
            TlsVariables { current_task_id: task.id, current_task: Some(r), borrows: 0 },
        ),
        task_list: with_task.task_list.insert(task.id, r),
        ..with_task
    }
}

/// The registers of a core after a task was bootstrapped on it and got the reference `r`.
pub open spec fn cpu_after_bootstrap<P: Platform>(
    cpu: CpuView,
    task: TaskView<P>,
    r: TaskRef,
) -> CpuView {
    CpuView {
        fs_task: Some(r),
        fs_base: sign_extended(task.tls_area.pointer_value as u64),
        gs_base: Some(TaskLocalData { taskref: r, task_id: task.id }),
        ..cpu
    }
}

/// Bootstraps a new task from the current thread of execution of a core.
///
/// The task runs on the given stack, in the address space of the kernel, and in the initial kernel
/// namespace, if there is one. Its TLS area is the one that `tls_image` makes for this namespace.
/// The stack is in use, so that it is not dropped if an error is returned.
///
/// This does not add the new task to any runqueue.
///
/// Returns an error if there is no initial kernel namespace,
/// or if the ID of the new task was on the task list already.
pub fn bootstrap_task<P: Platform, G>(
    system: &mut TaskSystem<P>,
    cpu: &mut Cpu,
    apic_id: u8,
    stack: ManuallyDrop<P::Stack>,
    kernel_mmi_ref: Arc<P::MemoryManagement>,
    initial_kernel_namespace: Option<&Arc<P::CrateNamespace>>,
    default_env: Arc<P::Environment>,
    failure_cleanup_function: P::FailureCleanupFunction,
    tls_image: G,
) -> (result: Result<JoinableTaskRef, &'static str>)
    where G: FnOnce(&Arc<P::CrateNamespace>) -> TlsDataImage<P::TlsData>
    requires
        old(system)@.wf(),
        old(system)@.cpu_wf(old(cpu)@),
        initial_kernel_namespace matches Some(namespace) ==> {
            &&& call_requires(tls_image, (namespace,))
            &&& forall|tls_area: TlsDataImage<P::TlsData>| #[trigger]
                call_ensures(tls_image, (namespace,), tls_area)
                    ==> has_virtual_form(tls_area.pointer_value as u64)
        },
    ensures
        match initial_kernel_namespace {
            None => {
                &&& result == Err::<JoinableTaskRef, &'static str>(NO_INITIAL_NAMESPACE)
                &&& final(system)@ == old(system)@
                &&& final(cpu)@ == old(cpu)@
            },
            Some(namespace) => exists|tls_area: TlsDataImage<P::TlsData>| #[trigger]
                call_ensures(tls_image, (namespace,), tls_area) && {
                    let task = bootstrapped(
                        TaskView::<P>::fresh(
                            old(system)@.next_task_id,
                            InnerView::<P>::fresh(stack@, default_env),
                            kernel_mmi_ref,
                            *namespace,
                            None,
                            failure_cleanup_function,
                            tls_area,
                        ),
                        apic_id,
                    );
                    &&& final(cpu)@.current() matches Some(r) && {
                        &&& r.index() == old(system)@.slots
                        &&& final(system)@ == system_after_bootstrap(old(system)@, task, r)
                        &&& final(cpu)@ == cpu_after_bootstrap(old(cpu)@, task, r)
                        &&& if old(system)@.task_list.contains_key(task.id) {
                            result == Err::<JoinableTaskRef, &'static str>(ID_ALREADY_LISTED)
                        } else {
                            result matches Ok(joinable) && joinable.task() == r
                        }
                    }
                },
        },
        old(system)@.stays_valid_as(final(system)@),
        final(system)@.cpu_wf(final(cpu)@),
{
    let namespace = match initial_kernel_namespace {
        Some(namespace) => Arc::clone(namespace),
        None => {
            return Err(NO_INITIAL_NAMESPACE);
        },
    };
    let mut task = Task::new_internal(
        system,
        ManuallyDrop::into_inner(stack),
        kernel_mmi_ref,
        namespace,
        default_env,
        None,
        failure_cleanup_function,
        tls_image,
    );
    let ghost numbered = system@;
    let task_id = task.task_id();
    let mut name = String::new();
    name.append("bootstrap_task_core_");
    append_decimal(&mut name, apic_id as u64);
    proof {
        assert(name@ =~= "bootstrap_task_core_"@ + decimal(apic_id as nat));
    }
    task.set_name(name);
    task.set_runstate(RunState::Runnable);
    task.set_running_on_cpu(Some(apic_id));
    task.inner_mut().set_pinned_core(Some(apic_id));
    let ghost view = task@;
    let task_ref = TaskRef::new(system, task);

    // Set the task as the current task of the core, as it is already running.
    let r: TaskRef = *task_ref;
    r.set_as_current_task(system, cpu);
    if get_my_current_task(cpu).is_none() {
        return Err(NOT_THE_CURRENT_TASK);
    }
    let ghost registered = system@;
    if init_current_task(system, cpu, task_id, Some(r)).is_err() {
        return Err(CURRENT_TASK_NOT_SET);
    }
    proof {
        assert forall|core: CpuView| #[trigger] old(system)@.cpu_wf(
            core,
        ) implies system@.cpu_wf(core) by {
            assert(numbered.cpu_wf(core));
            assert(registered.cpu_wf(core));
        }
        assert forall|s: TaskRef| #[trigger] old(system)@.has(s) implies s.index()
            < old(system)@.slots by {
            assert(old(system)@.task_wf(s.index()));
        }
    }

    // Insert the new task into the task list.
    let replaced = system.add_to_task_list(&r);
    if replaced.is_some() {
        task_ref.drop(system);
        proof {
            assert(system@ =~= system_after_bootstrap(old(system)@, view, r));
        }
        return Err(ID_ALREADY_LISTED);
    }
    proof {
        assert(system@ =~= system_after_bootstrap(old(system)@, view, r));
    }
    Ok(task_ref)
}

} // verus!
