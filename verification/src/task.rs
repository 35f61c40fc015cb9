//! The task structure.
use crate::cells::{
    compare_exchange_runstate, load_option, load_runstate, new_option, new_runstate, option_in,
    runstate_in, store_option, store_runstate, OptionU8,
};
use crate::exit::ExitValue;
use crate::hashing::{hash_by, hash_usize};
use crate::run_state::RunState;
use crate::task_ref::{TaskList, TaskLocalData, TaskRef};
use crate::text::{append_decimal, append_option, append_quoted, decimal, option_text, quoted};
use crossbeam_utils::atomic::AtomicCell;
use std::hash::{Hash, Hasher};
use std::sync::Arc;
use vstd::prelude::*;

verus! {

/// The error of an attempt to make a task exit that has exited already.
pub const ALREADY_EXITED: &'static str =
    "BUG: task was already exited! (did not overwrite its existing exit value)";

/// The types of the things that tasks own or share, but never look into.
pub trait Platform: Sized {
    /// The exit value of a task, the payload of a panic, or a part of what restarts a task.
    type Payload;

    /// The callback that is invoked when a task panics or otherwise fails.
    type KillHandler;

    /// A stack.
    type Stack;

    /// Memory management details of an address space: page tables, mappings, allocators, etc.
    type MemoryManagement;

    /// The namespace that a task is linked into and runs within.
    type CrateNamespace;

    /// The application crate that contains the entry function of a task.
    type AppCrate;

    /// Environment variables.
    type Environment;

    /// The memory of a thread-local storage area.
    type TlsData;

    /// The guard that keeps preemption disabled.
    type PreemptionGuard;

    /// The function that is run as a last-ditch attempt to recover from the failure of a task.
    type FailureCleanupFunction;
}

/// The levels of SIMD extensions that a task can use.
#[derive(Copy, Clone, Debug, PartialEq, Eq, Structural)]
pub enum SimdExt {
    /// AVX (and below) instructions and registers will be used.
    AVX,
    /// SSE instructions and registers will be used.
    SSE,
    /// The regular case: no SIMD instructions or registers of any kind will be used.
    Regular,
}

/// The data items needed to restart a task.
pub struct RestartInfo<A> {
    /// The argument of the task.
    pub argument: A,
    /// The function of the task.
    pub func: A,
}

/// A thread-local storage area, with the value of the pointer to itself that it holds.
pub struct TlsDataImage<D> {
    pub data: D,
    pub pointer_value: usize,
}

/// The parts of a task that may be modified after its creation
/// and that cannot be modified atomically.
pub struct TaskInner<P: Platform> {
    /// The status or value the task exited with, if it has already exited.
    exit_value: Option<ExitValue<P::Payload>>,
    /// The saved stack pointer value, used for task switching.
    pub saved_sp: usize,
    /// The data by which a core quickly tells that the task is its current one.
    /// It refers back to the task, thus it is initialized once the task has a reference.
    task_local_data: Option<Box<TaskLocalData>>,
    /// The preemption guard that was used for safely switching to the task. It is stored here
    /// right before a context switch begins and retrieved right after the context switch ends.
    preemption_guard: Option<P::PreemptionGuard>,
    /// Data that should be dropped after switching away from a task that has exited.
    drop_after_task_switch: Option<Box<TaskLocalData>>,
    /// The kernel stack, which all tasks must have in order to execute.
    pub kstack: P::Stack,
    /// The core that the task is pinned to, if any.
    pub pinned_core: Option<u8>,
    /// The function that will be called when the task panics or fails due to a machine
    /// exception, before the task is cleaned up.
    kill_handler: Option<P::KillHandler>,
    /// The environment variables of the task, which child and parent tasks share by default.
    env: Arc<P::Environment>,
    /// What restarts the task, if it is restartable.
    pub restart_info: Option<RestartInfo<P::Payload>>,
}

/// A structure that contains contextual information for a thread of execution.
pub struct Task<P: Platform> {
    /// The parts that are not modified atomically.
    inner: TaskInner<P>,
    /// The unique identifier of the task.
    pub id: usize,
    /// The simple name of the task.
    pub name: String,
    /// The core that the task is currently running on, if any.
    running_on_cpu: AtomicCell<OptionU8>,
    /// The runnability of the task, i.e. whether it is eligible to be scheduled in.
    runstate: AtomicCell<RunState>,
    /// Whether the joinable reference to the task still exists.
    joinable: bool,
    /// Memory management details, shared among all tasks in the same address space.
    pub mmi: Arc<P::MemoryManagement>,
    /// Whether this is the task that runs by default when no other task is running.
    pub is_an_idle_task: bool,
    /// The application crate that contains the entry function of the task, if it is one.
    pub app_crate: Option<Arc<P::AppCrate>>,
    /// The namespace in which the task is linked and runs.
    pub namespace: Arc<P::CrateNamespace>,
    /// The function that should be run as a last-ditch attempt to recover from a failure.
    pub failure_cleanup_function: P::FailureCleanupFunction,
    /// The thread-local storage area of the task.
    tls_area: TlsDataImage<P::TlsData>,
    /// The runqueue that the task is on, if any.
    on_runqueue: AtomicCell<OptionU8>,
    /// The level of SIMD extensions that the task uses.
    pub simd: SimdExt,
}

/// What a `TaskInner` holds.
pub ghost struct InnerView<P: Platform> {
    pub exit_value: Option<ExitValue<P::Payload>>,
    pub saved_sp: usize,
    pub task_local_data: Option<TaskLocalData>,
    pub preemption_guard: Option<P::PreemptionGuard>,
    pub drop_after_task_switch: Option<TaskLocalData>,
    pub kstack: P::Stack,
    pub pinned_core: Option<u8>,
    pub kill_handler: Option<P::KillHandler>,
    pub env: Arc<P::Environment>,
    pub restart_info: Option<RestartInfo<P::Payload>>,
}

/// What a `Task` holds.
pub ghost struct TaskView<P: Platform> {
    pub inner: InnerView<P>,
    pub id: usize,
    pub name: Seq<char>,
    pub running_on_cpu: Option<u8>,
    pub runstate: RunState,
    pub joinable: bool,
    pub mmi: Arc<P::MemoryManagement>,
    pub is_an_idle_task: bool,
    pub app_crate: Option<Arc<P::AppCrate>>,
    pub namespace: Arc<P::CrateNamespace>,
    pub failure_cleanup_function: P::FailureCleanupFunction,
    pub tls_area: TlsDataImage<P::TlsData>,
    pub on_runqueue: Option<u8>,
    pub simd: SimdExt,
}

/// What an optional box holds.
pub open spec fn unboxed(data: Option<Box<TaskLocalData>>) -> Option<TaskLocalData> {
    match data {
        Some(data) => Some(*data),
        None => None,
    }
}

impl<P: Platform> View for TaskInner<P> {
    type V = InnerView<P>;

    closed spec fn view(&self) -> InnerView<P> {
        InnerView {
            exit_value: self.exit_value,
            saved_sp: self.saved_sp,
            task_local_data: unboxed(self.task_local_data),
            preemption_guard: self.preemption_guard,
            drop_after_task_switch: unboxed(self.drop_after_task_switch),
            kstack: self.kstack,
            pinned_core: self.pinned_core,
            kill_handler: self.kill_handler,
            env: self.env,
            restart_info: self.restart_info,
        }
    }
}

impl<P: Platform> View for Task<P> {
    type V = TaskView<P>;

    closed spec fn view(&self) -> TaskView<P> {
        TaskView {
            inner: self.inner@,
            id: self.id,
            name: self.name@,
            running_on_cpu: option_in(self.running_on_cpu)@,
            runstate: runstate_in(self.runstate),
            joinable: self.joinable,
            mmi: self.mmi,
            is_an_idle_task: self.is_an_idle_task,
            app_crate: self.app_crate,
            namespace: self.namespace,
            failure_cleanup_function: self.failure_cleanup_function,
            tls_area: self.tls_area,
            on_runqueue: option_in(self.on_runqueue)@,
            simd: self.simd,
        }
    }
}

impl<P: Platform> InnerView<P> {
    /// The parts of a new task: everything is empty but the stack and the environment.
    pub open spec fn fresh(kstack: P::Stack, env: Arc<P::Environment>) -> InnerView<P> {
        InnerView {
            exit_value: None,
            saved_sp: 0,
            task_local_data: None,
            preemption_guard: None,
            drop_after_task_switch: None,
            kstack,
            pinned_core: None,
            kill_handler: None,
            env,
            restart_info: None,
        }
    }
}

impl<P: Platform> TaskView<P> {
    /// There is an exit value exactly if the task has exited and was not reaped.
    pub open spec fn wf(self) -> bool {
        self.inner.exit_value is Some <==> self.runstate == RunState::Exited
    }

    /// An operation on the task can lead to the state `after`: the ID stays the same, the run state
    /// follows its transitions, the exit value of an exited task stays until the task is reaped,
    /// and an orphan does not become joinable.
    pub open spec fn evolves_to(self, after: TaskView<P>) -> bool {
        &&& after.id == self.id
        &&& self.runstate.steps_to(after.runstate)
        &&& self.runstate == RunState::Exited && after.runstate == RunState::Exited
            ==> after.inner.exit_value == self.inner.exit_value
        &&& after.joinable ==> self.joinable
    }

    /// The task has not been part of a task switch yet.
    pub open spec fn is_unswitched(self) -> bool {
        self.inner.drop_after_task_switch is None
    }

    /// A new task with the given ID: it is being set up, runs nowhere and is not joinable.
    pub open spec fn fresh(
        id: usize,
        inner: InnerView<P>,
        mmi: Arc<P::MemoryManagement>,
        namespace: Arc<P::CrateNamespace>,
        app_crate: Option<Arc<P::AppCrate>>,
        failure_cleanup_function: P::FailureCleanupFunction,
        tls_area: TlsDataImage<P::TlsData>,
    ) -> TaskView<P> {
        TaskView {
            inner,
            id,
            name: "task_"@ + decimal(id as nat),
            running_on_cpu: None,
            runstate: RunState::Initing,
            joinable: false,
            mmi,
            is_an_idle_task: false,
            app_crate,
            namespace,
            failure_cleanup_function,
            tls_area,
            on_runqueue: None,
            simd: SimdExt::Regular,
        }
    }

    /// The task in another run state.
    pub open spec fn with_runstate(self, runstate: RunState) -> TaskView<P> {
        TaskView { runstate, ..self }
    }

    /// The task on another core, or on none.
    pub open spec fn with_cpu(self, running_on_cpu: Option<u8>) -> TaskView<P> {
        TaskView { running_on_cpu, ..self }
    }

    /// The task with another state of joinability.
    pub open spec fn with_joinable(self, joinable: bool) -> TaskView<P> {
        TaskView { joinable, ..self }
    }

    /// The task with other inner parts.
    pub open spec fn with_inner(self, inner: InnerView<P>) -> TaskView<P> {
        TaskView { inner, ..self }
    }

    /// The task with another environment.
    pub open spec fn with_env(self, env: Arc<P::Environment>) -> TaskView<P> {
        self.with_inner(InnerView { env, ..self.inner })
    }

    /// The task on another runqueue, or on none.
    pub open spec fn with_runqueue(self, on_runqueue: Option<u8>) -> TaskView<P> {
        TaskView { on_runqueue, ..self }
    }

    /// The task with another saved stack pointer.
    pub open spec fn with_saved_sp(self, saved_sp: usize) -> TaskView<P> {
        self.with_inner(InnerView { saved_sp, ..self.inner })
    }

    /// The task with other local data.
    pub open spec fn with_local_data(self, data: Option<TaskLocalData>) -> TaskView<P> {
        self.with_inner(InnerView { task_local_data: data, ..self.inner })
    }

    /// The task with another kill handler, or with none.
    pub open spec fn with_kill_handler(self, handler: Option<P::KillHandler>) -> TaskView<P> {
        self.with_inner(InnerView { kill_handler: handler, ..self.inner })
    }

    /// The task after it exited with `val`. A task that runs nowhere loses its local data
    /// at once, because it will never be scheduled in again.
    pub open spec fn exited_with(self, val: ExitValue<P::Payload>) -> TaskView<P> {
        TaskView {
            runstate: RunState::Exited,
            inner: InnerView {
                exit_value: Some(val),
                task_local_data: if self.running_on_cpu is Some {
                    self.inner.task_local_data
                } else {
                    None
                },
                ..self.inner
            },
            ..self
        }
    }

    /// The task after an attempt to make it exit with `val`, which has no effect
    /// on a task that has exited.
    pub open spec fn after_exit(self, val: ExitValue<P::Payload>) -> TaskView<P> {
        if self.runstate.is_over() {
            self
        } else {
            self.exited_with(val)
        }
    }

    /// What an attempt to make the task exit reports: the runqueue that the task has to be
    /// removed from, if any.
    pub open spec fn exit_report(self) -> Result<Option<u8>, &'static str> {
        if self.runstate.is_over() {
            Err(ALREADY_EXITED)
        } else {
            Ok(self.on_runqueue)
        }
    }

    /// The exit value that an attempt to take it returns.
    pub open spec fn reaped_value(self) -> Option<ExitValue<P::Payload>> {
        if self.runstate == RunState::Exited {
            self.inner.exit_value
        } else {
            None
        }
    }

    /// The task after an attempt to take its exit value, which has no effect on a task that
    /// has not exited or that was reaped.
    pub open spec fn after_reap(self) -> TaskView<P> {
        if self.runstate == RunState::Exited {
            TaskView {
                runstate: RunState::Reaped,
                inner: InnerView { exit_value: None, ..self.inner },
                ..self
            }
        } else {
            self
        }
    }

    /// A task list after an attempt to take the exit value of the task.
    pub open spec fn list_after_reap<V>(self, list: Map<usize, V>) -> Map<usize, V> {
        if self.runstate == RunState::Exited {
            list.remove(self.id)
        } else {
            list
        }
    }

    /// The task after the actions that follow a context switch.
    pub open spec fn after_context_switch(self) -> TaskView<P> {
        self.with_inner(
            InnerView { preemption_guard: None, drop_after_task_switch: None, ..self.inner },
        )
    }

    /// The text `name{id}`.
    pub open spec fn text(self) -> Seq<char> {
        self.name + "{"@ + decimal(self.id as nat) + "}"@
    }

    /// The text that shows the main fields for debugging.
    pub open spec fn debug_text(self, inner_is_locked: bool) -> Seq<char> {
        "Task { name: "@ + quoted(self.name) + ", id: "@ + decimal(
            self.id as nat,
        ) + ", running_on: "@ + option_text(self.running_on_cpu) + ", runstate: "@
            + self.runstate.text() + ", pinned: "@ + (if inner_is_locked {
            "\"<Locked>\""@
        } else {
            option_text(self.inner.pinned_core)
        }) + " }"@
    }
}

impl<P: Platform> TaskInner<P> {
    /// Returns the saved stack pointer.
    pub fn get_saved_sp(&self) -> (saved_sp: usize)
        ensures
            saved_sp == self@.saved_sp,
    {
        self.saved_sp
    }

    /// Returns the kernel stack.
    pub fn get_kstack(&self) -> (kstack: &P::Stack)
        ensures
            *kstack == self@.kstack,
    {
        &self.kstack
    }

    /// Returns the core that the task is pinned to, if any.
    pub fn get_pinned_core(&self) -> (pinned_core: Option<u8>)
        ensures
            pinned_core == self@.pinned_core,
    {
        self.pinned_core
    }

    /// Returns what restarts the task, if it is restartable.
    pub fn get_restart_info(&self) -> (restart_info: &Option<RestartInfo<P::Payload>>)
        ensures
            *restart_info == self@.restart_info,
    {
        &self.restart_info
    }

    /// Sets the saved stack pointer.
    pub fn set_saved_sp(&mut self, saved_sp: usize)
        ensures
            final(self)@ == (InnerView { saved_sp, ..old(self)@ }),
    {
        self.saved_sp = saved_sp;
    }

    /// Sets the kernel stack.
    pub fn set_kstack(&mut self, kstack: P::Stack)
        ensures
            final(self)@ == (InnerView { kstack, ..old(self)@ }),
    {
        self.kstack = kstack;
    }

    /// Pins the task to a core, or to none.
    pub fn set_pinned_core(&mut self, pinned_core: Option<u8>)
        ensures
            final(self)@ == (InnerView { pinned_core, ..old(self)@ }),
    {
        self.pinned_core = pinned_core;
    }

    /// Sets what restarts the task, which makes it restartable, or not.
    pub fn set_restart_info(&mut self, restart_info: Option<RestartInfo<P::Payload>>)
        ensures
            final(self)@ == (InnerView { restart_info, ..old(self)@ }),
    {
        self.restart_info = restart_info;
    }
}

impl<P: Platform> Task<P> {
    /// Puts a new task together from its parts. It is not runnable, and it is not considered
    /// joinable until it is passed to `TaskRef::new`.
    pub(crate) fn with_parts(
        task_id: usize,
        kstack: P::Stack,
        mmi: Arc<P::MemoryManagement>,
        namespace: Arc<P::CrateNamespace>,
        env: Arc<P::Environment>,
        app_crate: Option<Arc<P::AppCrate>>,
        failure_cleanup_function: P::FailureCleanupFunction,
        tls_area: TlsDataImage<P::TlsData>,
    ) -> (task: Self)
        ensures
            task@ == TaskView::<P>::fresh(
                task_id,
                InnerView::<P>::fresh(kstack, env),
                mmi,
                namespace,
                app_crate,
                failure_cleanup_function,
                tls_area,
            ),
    {
        let mut name = String::new();
        name.append("task_");
        append_decimal(&mut name, task_id as u64);
        proof {
            assert(name@ =~= "task_"@ + decimal(task_id as nat));
        }
        Task {
            inner: TaskInner {
                exit_value: None,
                saved_sp: 0,
                task_local_data: None,
                preemption_guard: None,
                drop_after_task_switch: None,
                kstack,
                pinned_core: None,
                kill_handler: None,
                env,
                restart_info: None,
            },
            id: task_id,
            name,
            running_on_cpu: new_option(OptionU8::from(None)),
            runstate: new_runstate(RunState::Initing),
            joinable: false,
            mmi,
            is_an_idle_task: false,
            app_crate,
            namespace,
            failure_cleanup_function,
            tls_area,
            on_runqueue: new_option(OptionU8::from(None)),
            simd: SimdExt::Regular,
        }
    }

    /// Sets the environment of the task.
    pub fn set_env(&mut self, new_env: Arc<P::Environment>)
        ensures
            final(self)@ == old(self)@.with_env(new_env),
    {
        self.inner.env = new_env;
    }

    /// Gets a reference to the environment of the task.
    pub fn get_env(&self) -> (env: Arc<P::Environment>)
        ensures
            env == self@.inner.env,
    {
        Arc::clone(&self.inner.env)
    }

    /// Returns `true` if the task is currently running.
    pub fn is_running(&self) -> (running: bool)
        ensures
            running == (self@.running_on_cpu is Some),
    {
        self.running_on_cpu().is_some()
    }

    /// Returns the ID of the core that the task is currently running on.
    pub fn running_on_cpu(&self) -> (cpu: Option<u8>)
        ensures
            cpu == self@.running_on_cpu,
    {
        load_option(&self.running_on_cpu).into()
    }

    /// Returns `true` if the task is joinable, `false` if it is an orphan.
    pub fn is_joinable(&self) -> (joinable: bool)
        ensures
            joinable == self@.joinable,
    {
        self.joinable
    }

    /// Returns the ID of the core that the task is pinned on, or `None` if it is not pinned.
    pub fn pinned_core(&self) -> (core: Option<u8>)
        ensures
            core == self@.inner.pinned_core,
    {
        self.inner.pinned_core
    }

    /// Returns the current run state of the task.
    pub fn runstate(&self) -> (state: RunState)
        ensures
            state == self@.runstate,
    {
        load_runstate(&self.runstate)
    }

    /// Returns `true` if the task is runnable, i.e. able to be scheduled in.
    /// This does *not* mean that the task is actually running.
    pub fn is_runnable(&self) -> (runnable: bool)
        ensures
            runnable == (self@.runstate == RunState::Runnable),
    {
        self.runstate() == RunState::Runnable
    }

    /// Returns the namespace in which the task is linked and runs.
    pub fn get_namespace(&self) -> (namespace: &Arc<P::CrateNamespace>)
        ensures
            *namespace == self@.namespace,
    {
        &self.namespace
    }

    /// Exposes read-only access to the kernel stack of the task
    /// by invoking `func` with a reference to it.
    pub fn with_kstack<R, F>(&self, func: F) -> (result: R)
        where F: FnOnce(&P::Stack) -> R
        requires
            call_requires(func, (&self@.inner.kstack,)),
        ensures
            call_ensures(func, (&self@.inner.kstack,), result),
    {
        func(&self.inner.kstack)
    }

    /// Returns a mutable reference to the inner parts of the task.
    pub fn inner_mut(&mut self) -> (inner: &mut TaskInner<P>)
        ensures
            inner@ == old(self)@.inner,
            final(self)@ == old(self)@.with_inner(final(inner)@),
    {
        &mut self.inner
    }

    /// Exposes read-only access to what restarts the task
    /// by invoking `func` with a reference to it.
    pub fn with_restart_info<R, F>(&self, func: F) -> (result: R)
        where F: FnOnce(Option<&RestartInfo<P::Payload>>) -> R
        requires
            match self@.inner.restart_info {
                Some(info) => call_requires(func, (Some(&info),)),
                None => call_requires(func, (None::<&RestartInfo<P::Payload>>,)),
            },
        ensures
            match self@.inner.restart_info {
                Some(info) => call_ensures(func, (Some(&info),), result),
                None => call_ensures(func, (None::<&RestartInfo<P::Payload>>,), result),
            },
    {
        match &self.inner.restart_info {
            Some(info) => func(Some(info)),
            None => func(None),
        }
    }

    /// Returns `true` if the task has exited, i.e. if it is exited or reaped.
    pub fn has_exited(&self) -> (exited: bool)
        ensures
            exited == self@.runstate.is_over(),
    {
        match self.runstate() {
            RunState::Exited | RunState::Reaped => true,
            _ => false,
        }
    }

    /// Returns `true` if this is an application task.
    /// This is also the case if it was spawned by an application task,
    /// since a task inherits the application crate from its parent.
    pub fn is_application(&self) -> (application: bool)
        ensures
            application == (self@.app_crate is Some),
    {
        self.app_crate.is_some()
    }

    /// Returns `true` if this is a userspace task.
    /// Userspace support is disabled, so this always returns `false`.
    pub fn is_userspace(&self) -> (userspace: bool)
        ensures
            !userspace,
    {
        false
    }

    /// Returns `true` if the task was spawned as a restartable task.
    pub fn is_restartable(&self) -> (restartable: bool)
        ensures
            restartable == (self@.inner.restart_info is Some),
    {
        self.inner.restart_info.is_some()
    }

    /// Takes the exit value of the task, if and only if the task is in the exited state.
    ///
    /// If it is, then it is reaped afterwards, and is no longer in `task_list`.
    /// If it is not, nothing is done and `None` is returned.
    pub fn take_exit_value(&mut self, task_list: &mut TaskList) -> (value: Option<
        ExitValue<P::Payload>,
    >)
        ensures
            value == old(self)@.reaped_value(),
            final(self)@ == old(self)@.after_reap(),
            final(task_list)@ == old(self)@.list_after_reap(old(task_list)@),
            old(self)@.wf() ==> (value is Some <==> old(self)@.runstate == RunState::Exited),
    {
        if compare_exchange_runstate(
            &mut self.runstate,
            RunState::Exited,
            RunState::Reaped,
        ).is_ok() {
            task_list.remove(self.id);
            self.inner.exit_value.take()
        } else {
            None
        }
    }

    /// Returns the runqueue on which the task is currently enqueued.
    pub fn on_runqueue(&self) -> (runqueue: Option<u8>)
        ensures
            runqueue == self@.on_runqueue,
    {
        load_option(&self.on_runqueue).into()
    }

    /// Marks the task as enqueued on the given runqueue.
    pub fn set_on_runqueue(&mut self, runqueue: Option<u8>)
        ensures
            final(self)@ == old(self)@.with_runqueue(runqueue),
    {
        store_option(&mut self.on_runqueue, OptionU8::from(runqueue));
    }

    /// Blocks the task.
    ///
    /// Returns the previous run state on success, and the current run state on error.
    /// Succeeds only if the task is runnable or already blocked.
    pub fn block(&mut self) -> (result: Result<RunState, RunState>)
        ensures
            result == old(self)@.runstate.wakeup_report(),
            final(self)@ == old(self)@.with_runstate(old(self)@.runstate.after_block()),
    {
        if compare_exchange_runstate(
            &mut self.runstate,
            RunState::Runnable,
            RunState::Blocked,
        ).is_ok() {
            Ok(RunState::Runnable)
        } else if compare_exchange_runstate(
            &mut self.runstate,
            RunState::Blocked,
            RunState::Blocked,
        ).is_ok() {
            Ok(RunState::Blocked)
        } else {
            Err(load_runstate(&self.runstate))
        }
    }

    /// Blocks the task if it is newly spawned and being set up.
    ///
    /// Returns the previous run state on success, and the current run state on error.
    pub fn block_initing_task(&mut self) -> (result: Result<RunState, RunState>)
        ensures
            result == old(self)@.runstate.init_report(),
            final(self)@ == old(self)@.with_runstate(
                old(self)@.runstate.after_init(RunState::Blocked),
            ),
    {
        if compare_exchange_runstate(
            &mut self.runstate,
            RunState::Initing,
            RunState::Blocked,
        ).is_ok() {
            Ok(RunState::Initing)
        } else {
            Err(load_runstate(&self.runstate))
        }
    }

    /// Unblocks the task.
    ///
    /// Returns the previous run state on success, and the current run state on error.
    /// Succeeds only if the task is blocked or already runnable.
    pub fn unblock(&mut self) -> (result: Result<RunState, RunState>)
        ensures
            result == old(self)@.runstate.wakeup_report(),
            final(self)@ == old(self)@.with_runstate(old(self)@.runstate.after_unblock()),
    {
        if compare_exchange_runstate(
            &mut self.runstate,
            RunState::Blocked,
            RunState::Runnable,
        ).is_ok() {
            Ok(RunState::Blocked)
        } else if compare_exchange_runstate(
            &mut self.runstate,
            RunState::Runnable,
            RunState::Runnable,
        ).is_ok() {
            Ok(RunState::Runnable)
        } else {
            Err(load_runstate(&self.runstate))
        }
    }

    /// Makes the task runnable if it is newly spawned and fully set up.
    ///
    /// Returns the previous run state on success, and the current run state on error.
    pub fn make_inited_task_runnable(&mut self) -> (result: Result<RunState, RunState>)
        ensures
            result == old(self)@.runstate.init_report(),
            final(self)@ == old(self)@.with_runstate(
                old(self)@.runstate.after_init(RunState::Runnable),
            ),
    {
        if compare_exchange_runstate(
            &mut self.runstate,
            RunState::Initing,
            RunState::Runnable,
        ).is_ok() {
            Ok(RunState::Initing)
        } else {
            Err(load_runstate(&self.runstate))
        }
    }

    /// Performs the actions needed after a context switch to the task: drops the data that the
    /// previous task prepared for that, and returns the preemption guard, so that preemption
    /// can be re-enabled when it is appropriate to do so.
    pub fn post_context_switch_action(&mut self) -> (guard: P::PreemptionGuard)
        requires
            old(self)@.inner.preemption_guard is Some,
        ensures
            Some(guard) == old(self)@.inner.preemption_guard,
            final(self)@ == old(self)@.after_context_switch(),
    {
        self.inner.drop_after_task_switch = None;
        self.inner.preemption_guard.take().expect(
            "BUG: post_context_switch_action: no PreemptionGuard existed",
        )
    }

    /// Makes the task exit with the given value.
    ///
    /// Returns an error if the task has already exited, whose exit value is not overwritten.
    /// Otherwise returns the runqueue that the task has to be removed from, if any.
    pub(crate) fn internal_exit(&mut self, val: ExitValue<P::Payload>) -> (result: Result<
        Option<u8>,
        &'static str,
    >)
        ensures
            result == old(self)@.exit_report(),
            final(self)@ == old(self)@.after_exit(val),
    {
        if self.has_exited() {
            return Err(ALREADY_EXITED);
        }
        self.inner.exit_value = Some(val);
        store_runstate(&mut self.runstate, RunState::Exited);

        // A task that is not running, as a killed one, is cleaned up now rather than
        // by a task switch, as it will never be scheduled in again.
        if !self.is_running() {
            self.inner.task_local_data = None;
        }
        Ok(self.on_runqueue())
    }

    /// Returns the text `name{id}`.
    pub fn to_string(&self) -> (out: String)
        ensures
            out@ == self@.text(),
    {
        let mut out = self.name.clone();
        out.append("{");
        append_decimal(&mut out, self.id as u64);
        out.append("}");
        out
    }

    /// Returns the text that shows the main fields for debugging. It does not show what may be
    /// changing at the moment because someone else has the inner parts locked.
    pub fn debug_string(&self, inner_is_locked: bool) -> (out: String)
        ensures
            out@ == self@.debug_text(inner_is_locked),
    {
        let mut out = String::new();
        out.append("Task { name: ");
        append_quoted(&mut out, self.name.as_str());
        out.append(", id: ");
        append_decimal(&mut out, self.id as u64);
        out.append(", running_on: ");
        append_option(&mut out, self.running_on_cpu());
        out.append(", runstate: ");
        out.append(self.runstate().name());
        out.append(", pinned: ");
        if inner_is_locked {
            out.append("\"<Locked>\"");
        } else {
            append_option(&mut out, self.inner.pinned_core);
        }
        out.append(" }");
        proof {
            assert(out@ =~= self@.debug_text(inner_is_locked));
        }
        out
    }

    /// Sets the name.
    pub fn set_name(&mut self, name: String)
        ensures
            final(self)@ == (TaskView { name: name@, ..old(self)@ }),
    {
        self.name = name;
    }

    /// Sets the run state without regard to the current one.
    pub(crate) fn set_runstate(&mut self, state: RunState)
        ensures
            final(self)@ == old(self)@.with_runstate(state),
    {
        store_runstate(&mut self.runstate, state);
    }

    /// Sets the core that the task is running on.
    pub(crate) fn set_running_on_cpu(&mut self, cpu: Option<u8>)
        ensures
            final(self)@ == old(self)@.with_cpu(cpu),
    {
        store_option(&mut self.running_on_cpu, OptionU8::from(cpu));
    }

    /// Sets the memory management details, in place of those that were inherited.
    pub fn set_mmi(&mut self, mmi: Arc<P::MemoryManagement>)
        ensures
            final(self)@ == (TaskView { mmi, ..old(self)@ }),
    {
        self.mmi = mmi;
    }

    /// Sets the namespace, in place of the one that was inherited.
    pub fn set_namespace(&mut self, namespace: Arc<P::CrateNamespace>)
        ensures
            final(self)@ == (TaskView { namespace, ..old(self)@ }),
    {
        self.namespace = namespace;
    }

    /// Sets the application crate, in place of the one that was inherited.
    pub fn set_app_crate(&mut self, app_crate: Option<Arc<P::AppCrate>>)
        ensures
            final(self)@ == (TaskView { app_crate, ..old(self)@ }),
    {
        self.app_crate = app_crate;
    }

    /// Sets whether this is the task that runs by default when no other task is running.
    pub fn set_idle(&mut self, is_an_idle_task: bool)
        ensures
            final(self)@ == (TaskView { is_an_idle_task, ..old(self)@ }),
    {
        self.is_an_idle_task = is_an_idle_task;
    }

    /// Sets the level of SIMD extensions that the task uses.
    pub fn set_simd(&mut self, simd: SimdExt)
        ensures
            final(self)@ == (TaskView { simd, ..old(self)@ }),
    {
        self.simd = simd;
    }

    /// Sets the function that should be run as a last-ditch attempt to recover from a failure.
    pub fn set_failure_cleanup_function(&mut self, function: P::FailureCleanupFunction)
        ensures
            final(self)@ == (TaskView { failure_cleanup_function: function, ..old(self)@ }),
    {
        self.failure_cleanup_function = function;
    }

    /// Marks the task as joinable, or as an orphan.
    pub(crate) fn set_joinable(&mut self, joinable: bool)
        ensures
            final(self)@ == old(self)@.with_joinable(joinable),
    {
        self.joinable = joinable;
    }

    /// Sets the data by which a core quickly tells that the task is its current one.
    pub(crate) fn set_local_data(&mut self, data: TaskLocalData)
        ensures
            final(self)@ == old(self)@.with_local_data(Some(data)),
    {
        self.inner.task_local_data = Some(Box::new(data));
    }

    /// Returns the data by which a core quickly tells that the task is its current one.
    pub(crate) fn local_data(&self) -> (data: Option<TaskLocalData>)
        ensures
            data == self@.inner.task_local_data,
    {
        match &self.inner.task_local_data {
            Some(data) => Some(**data),
            None => None,
        }
    }

    /// Returns whether the local data of the task, or the data that it is to drop, tell `r`.
    pub(crate) fn refers_to(&self, r: &TaskRef) -> (refers: bool)
        ensures
            refers == {
                ||| self@.inner.task_local_data matches Some(data) && data.taskref == *r
                ||| self@.inner.drop_after_task_switch matches Some(data) && data.taskref == *r
            },
    {
        let own = match &self.inner.task_local_data {
            Some(data) => data.taskref == *r,
            None => false,
        };
        let dropped = match &self.inner.drop_after_task_switch {
            Some(data) => data.taskref == *r,
            None => false,
        };
        own || dropped
    }

    /// Takes the data by which a core quickly tells that the task is its current one.
    pub(crate) fn take_local_data(&mut self) -> (data: Option<Box<TaskLocalData>>)
        ensures
            unboxed(data) == old(self)@.inner.task_local_data,
            final(self)@ == old(self)@.with_local_data(None),
    {
        self.inner.task_local_data.take()
    }

    /// Leaves data with the task which is to be dropped after the switch to it.
    pub(crate) fn set_drop_after_task_switch(&mut self, data: Option<Box<TaskLocalData>>)
        ensures
            final(self)@ == old(self)@.with_inner(
                (InnerView { drop_after_task_switch: unboxed(data), ..old(self)@.inner }),
            ),
    {
        self.inner.drop_after_task_switch = data;
    }

    /// Leaves a preemption guard with the task.
    pub(crate) fn set_preemption_guard(&mut self, guard: P::PreemptionGuard)
        ensures
            final(self)@ == old(self)@.with_inner(
                (InnerView { preemption_guard: Some(guard), ..old(self)@.inner }),
            ),
    {
        self.inner.preemption_guard = Some(guard);
    }

    /// Registers a kill handler.
    pub(crate) fn set_kill_handler(&mut self, handler: P::KillHandler)
        ensures
            final(self)@ == old(self)@.with_kill_handler(Some(handler)),
    {
        self.inner.kill_handler = Some(handler);
    }

    /// Takes the registered kill handler.
    pub(crate) fn take_kill_handler(&mut self) -> (handler: Option<P::KillHandler>)
        ensures
            handler == old(self)@.inner.kill_handler,
            final(self)@ == old(self)@.with_kill_handler(None),
    {
        self.inner.kill_handler.take()
    }

    /// Returns whether a kill handler is registered.
    pub fn has_kill_handler(&self) -> (has: bool)
        ensures
            has == (self@.inner.kill_handler is Some),
    {
        self.inner.kill_handler.is_some()
    }

    /// Returns the saved stack pointer.
    pub(crate) fn saved_sp(&self) -> (sp: usize)
        ensures
            sp == self@.inner.saved_sp,
    {
        self.inner.saved_sp
    }

    /// Returns the place of the saved stack pointer.
    pub(crate) fn saved_sp_mut(&mut self) -> (sp: &mut usize)
        ensures
            *sp == old(self)@.inner.saved_sp,
            final(self)@ == old(self)@.with_saved_sp(*final(sp)),
    {
        &mut self.inner.saved_sp
    }

    /// Returns the name.
    pub fn get_name(&self) -> (name: &String)
        ensures
            name@ == self@.name,
    {
        &self.name
    }

    /// Returns whether this is the task that runs by default when no other task is running.
    pub fn is_idle(&self) -> (idle: bool)
        ensures
            idle == self@.is_an_idle_task,
    {
        self.is_an_idle_task
    }

    /// Returns the function that should be run as a last-ditch attempt to recover from a failure.
    pub fn get_failure_cleanup_function(&self) -> (function: &P::FailureCleanupFunction)
        ensures
            *function == self@.failure_cleanup_function,
    {
        &self.failure_cleanup_function
    }

    /// Returns the ID.
    pub fn task_id(&self) -> (id: usize)
        ensures
            id == self@.id,
    {
        self.id
    }

    /// Shares the memory management details.
    pub fn shared_mmi(&self) -> (mmi: Arc<P::MemoryManagement>)
        ensures
            mmi == self@.mmi,
    {
        Arc::clone(&self.mmi)
    }

    /// Shares the application crate.
    pub fn shared_app_crate(&self) -> (app_crate: Option<Arc<P::AppCrate>>)
        ensures
            app_crate == self@.app_crate,
    {
        match &self.app_crate {
            Some(app_crate) => Some(Arc::clone(app_crate)),
            None => None,
        }
    }

    /// Returns the level of SIMD extensions.
    pub fn simd_level(&self) -> (simd: SimdExt)
        ensures
            simd == self@.simd,
    {
        self.simd
    }

    /// Returns the value of the pointer to itself that the TLS area of the task holds.
    pub fn tls_pointer_value(&self) -> (pointer: usize)
        ensures
            pointer == self@.tls_area.pointer_value,
    {
        self.tls_area.pointer_value
    }
}

impl<P: Platform> Drop for Task<P> {
    /// Drops the kill handler before anything else of the task. If it were dropped later, its code
    /// might have been unmapped already, together with the application crate it comes from.
    fn drop(&mut self)
        ensures
            final(self)@ == old(self)@.with_kill_handler(None),
        opens_invariants none
        no_unwind
    {
        self.inner.kill_handler = None;
    }
}

impl<P: Platform> Hash for Task<P> {
    /// Gives the ID of the task to the hasher, and nothing else of it.
    fn hash<H: Hasher>(&self, state: &mut H)
        ensures
            exists|s: &mut H| #[trigger]
                call_ensures(hash_usize::<H>, (&self@.id, s), ()) && *s == *old(state)
                    && *final(s) == *final(state),
    {
        hash_by(hash_usize::<H>, &self.id, state);
        proof {
            assert(self@.id == self.id);
        }
    }
}

} // verus!
