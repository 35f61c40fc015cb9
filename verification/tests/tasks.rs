use crossbeam_utils::atomic::AtomicCell;
use std::any::Any;
use std::collections::hash_map::DefaultHasher;
use std::hash::{Hash, Hasher};
use std::mem::ManuallyDrop;
use std::sync::atomic::{AtomicUsize, Ordering};
use std::sync::Arc;
use task::bootstrap::{bootstrap_task, ID_ALREADY_LISTED, NO_INITIAL_NAMESPACE};
use task::cells::OptionU8;
use task::current::{
    borrow_current_task, deinit_current_task, get_current_task, get_my_current_task, get_my_current_task_id, get_task,
    init_current_task, set_kill_handler, take_kill_handler, with_current_task, NO_CURRENT_TASK,
};
use task::exit::{ExitValue, KillReason};
use task::lifecycle::{
    JoinPhase, JOIN_OF_CURRENT_TASK, JOIN_WITHOUT_CURRENT_TASK, JOIN_WITHOUT_INTERRUPTS,
    KILLED_OTHER_TASK, KILLED_WITHOUT_CURRENT_TASK, NO_KERNEL_STACK, NO_PARENT_TASK,
};
use task::run_state::RunState;
use task::switch::{ContextSwitchRoutine, TaskSwitch};
use task::system::{get_task_local_data, Cpu, TaskSystem};
use task::task::{Platform, RestartInfo, SimdExt, Task, TlsDataImage, ALREADY_EXITED};
use task::task_ref::{JoinableTaskRef, TaskList, TaskRef};

type Payload = Box<dyn Any + Send>;

struct Kernel;

impl Platform for Kernel {
    type Payload = Payload;
    type KillHandler = Box<dyn Fn(&KillReason<Payload>) -> usize + Send>;
    type Stack = &'static str;
    type MemoryManagement = &'static str;
    type CrateNamespace = &'static str;
    type AppCrate = &'static str;
    type Environment = &'static str;
    type TlsData = &'static str;
    type PreemptionGuard = u32;
    type FailureCleanupFunction = fn(TaskRef) -> usize;
}

type System = TaskSystem<Kernel>;

type Removal = fn(&TaskRef, u8) -> Result<(), &'static str>;

const NO_REMOVAL: Option<Removal> = None;

fn cleanup(_task: TaskRef) -> usize {
    99
}

fn image(pointer_value: usize) -> TlsDataImage<&'static str> {
    TlsDataImage { data: "tls", pointer_value }
}

/// A new task with the given ID that is not part of a system. It has the name that goes with its ID,
/// unless the ID is zero, which a bootstrapped task gets.
fn loose_task(id: usize) -> Task<Kernel> {
    let mut system = System::new(16);
    let mut cpu = Cpu::new(0);
    let parent = bootstrap_task(
        &mut system,
        &mut cpu,
        0,
        ManuallyDrop::new("boot stack"),
        Arc::new("mmi"),
        Some(&Arc::new("namespace")),
        Arc::new("env"),
        cleanup,
        |_namespace| image(0x7000),
    );
    let parent = parent.unwrap();
    loop {
        let created = Task::<Kernel>::new(
            &mut system,
            &cpu,
            Some("stack"),
            Some(&parent),
            cleanup,
            |_pages, _mmi| panic!("a stack was given"),
            |_namespace| image(0x1000 * (id + 1)),
        );
        match created {
            Ok(mut task) => {
                if id == 0 {
                    task.id = 0;
                }
                if task.id == id {
                    return task;
                }
            }
            Err(error) => panic!("{}", error),
        }
    }
}

/// A system with one bootstrapped task on core 3, which has the ID 0.
fn booted() -> (System, Cpu, JoinableTaskRef) {
    let mut system = System::new(16);
    let mut cpu = Cpu::new(0xb007);
    let joinable = boot(&mut system, &mut cpu, 3).unwrap();
    (system, cpu, joinable)
}

fn boot(system: &mut System, cpu: &mut Cpu, core: u8) -> Result<JoinableTaskRef, &'static str> {
    bootstrap_task(
        system,
        cpu,
        core,
        ManuallyDrop::new("boot stack"),
        Arc::new("kernel mmi"),
        Some(&Arc::new("kernel namespace")),
        Arc::new("default env"),
        cleanup,
        |_namespace| image(0x7000),
    )
}

/// Creates a child of the current task, with a stack of its own.
fn spawn(system: &mut System, cpu: &Cpu, pointer_value: usize) -> JoinableTaskRef {
    let created = Task::<Kernel>::new(
        system,
        cpu,
        Some("child stack"),
        None,
        cleanup,
        |_pages, _mmi| panic!("a stack was given"),
        |_namespace| image(pointer_value),
    );
    match created {
        Ok(task) => TaskRef::new(system, task),
        Err(error) => panic!("{}", error),
    }
}

fn completed(value: Option<ExitValue<Payload>>) -> Option<i32> {
    match value {
        Some(ExitValue::Completed(payload)) => payload.downcast_ref::<i32>().copied(),
        _ => None,
    }
}

#[test]
fn cells_use_native_atomic_instructions() {
    assert!(AtomicCell::<OptionU8>::is_lock_free());
    assert!(AtomicCell::<RunState>::is_lock_free());
    assert_eq!(OptionU8::from(Some(9)).into(), Some(9));
    assert_eq!(OptionU8::from(None).into(), None);
}

#[test]
fn new_task_is_fresh() {
    let task = loose_task(41);
    assert_eq!(task.id, 41);
    assert_eq!(task.name, "task_41");
    assert_eq!(task.runstate(), RunState::Initing);
    assert_eq!(task.running_on_cpu(), None);
    assert!(!task.is_running());
    assert!(!task.is_joinable());
    assert!(!task.is_runnable());
    assert!(!task.has_exited());
    assert!(!task.is_application());
    assert!(!task.is_userspace());
    assert!(!task.is_restartable());
    assert!(!task.is_an_idle_task);
    assert_eq!(task.pinned_core(), None);
    assert_eq!(task.on_runqueue(), None);
    assert_eq!(task.simd, SimdExt::Regular);
    assert_eq!(*task.get_env(), "env");
    assert_eq!(**task.get_namespace(), "namespace");
    assert_eq!(*task.mmi, "mmi");
    assert_eq!(task.with_kstack(|stack| stack.len()), 5);
    assert_eq!(task.with_restart_info(|info| info.is_some()), false);
}

#[test]
fn inner_mut_gives_the_inner_parts() {
    let mut task = loose_task(0);
    task.inner_mut().saved_sp = 0x5eed;
    task.inner_mut().pinned_core = Some(2);
    task.inner_mut().kstack = "other";
    task.inner_mut().restart_info =
        Some(RestartInfo { argument: Box::new(5u8), func: Box::new("f") });
    assert_eq!(task.inner_mut().saved_sp, 0x5eed);
    assert_eq!(task.pinned_core(), Some(2));
    assert_eq!(task.with_kstack(|stack| *stack), "other");
    assert!(task.is_restartable());
    let argument =
        task.with_restart_info(|info| info.map(|i| i.argument.downcast_ref::<u8>() == Some(&5)));
    assert_eq!(argument, Some(true));
}

#[test]
fn last_write_is_read() {
    let mut task = loose_task(0);
    task.set_env(Arc::new("new env"));
    assert_eq!(*task.get_env(), "new env");
    task.set_on_runqueue(Some(6));
    assert_eq!(task.on_runqueue(), Some(6));
    task.set_on_runqueue(None);
    assert_eq!(task.on_runqueue(), None);
}

#[test]
fn tasks_are_told() {
    let mut task = loose_task(7);
    assert_eq!(task.to_string(), "task_7{7}");
    task.name = String::from("a\"b");
    assert_eq!(
        task.debug_string(false),
        "Task { name: \"a\\\"b\", id: 7, running_on: None, runstate: Initing, pinned: None }"
    );
    task.inner_mut().pinned_core = Some(1);
    assert_eq!(task.block_initing_task(), Ok(RunState::Initing));
    assert_eq!(
        task.debug_string(false),
        "Task { name: \"a\\\"b\", id: 7, running_on: None, runstate: Blocked, pinned: Some(1) }"
    );
    assert_eq!(
        task.debug_string(true),
        "Task { name: \"a\\\"b\", id: 7, running_on: None, runstate: Blocked, pinned: \"<Locked>\" }"
    );
}

#[test]
fn run_states_have_names() {
    for state in [
        RunState::Initing,
        RunState::Runnable,
        RunState::Blocked,
        RunState::Exited,
        RunState::Reaped,
    ] {
        assert_eq!(state.name(), format!("{:?}", state));
    }
}

#[test]
fn tasks_hash_by_their_ids() {
    let hash = |task: &Task<Kernel>| {
        let mut hasher = DefaultHasher::new();
        task.hash(&mut hasher);
        hasher.finish()
    };
    let mut renamed = loose_task(5);
    renamed.name = String::from("renamed");
    assert_eq!(hash(&loose_task(5)), hash(&renamed));
    assert_ne!(hash(&loose_task(5)), hash(&loose_task(6)));
    let mut hasher = DefaultHasher::new();
    5usize.hash(&mut hasher);
    assert_eq!(hash(&loose_task(5)), hasher.finish());
}

#[test]
fn set_up_ends_once() {
    let mut task = loose_task(0);
    assert_eq!(task.block(), Err(RunState::Initing));
    assert_eq!(task.unblock(), Err(RunState::Initing));
    assert_eq!(task.runstate(), RunState::Initing);
    assert_eq!(task.make_inited_task_runnable(), Ok(RunState::Initing));
    assert!(task.is_runnable());
    assert_eq!(task.make_inited_task_runnable(), Err(RunState::Runnable));
    assert_eq!(task.block_initing_task(), Err(RunState::Runnable));
    assert!(task.is_runnable());

    let mut other = loose_task(1);
    assert_eq!(other.block_initing_task(), Ok(RunState::Initing));
    assert_eq!(other.runstate(), RunState::Blocked);
    assert_eq!(other.block_initing_task(), Err(RunState::Blocked));
}

#[test]
fn block_and_unblock_are_inverse() {
    let mut task = loose_task(0);
    assert_eq!(task.make_inited_task_runnable(), Ok(RunState::Initing));
    assert_eq!(task.unblock(), Ok(RunState::Runnable));
    assert_eq!(task.block(), Ok(RunState::Runnable));
    assert_eq!(task.runstate(), RunState::Blocked);
    assert_eq!(task.block(), Ok(RunState::Blocked));
    assert_eq!(task.runstate(), RunState::Blocked);
    assert_eq!(task.unblock(), Ok(RunState::Blocked));
    assert_eq!(task.runstate(), RunState::Runnable);
}

#[test]
fn unexited_task_has_no_exit_value() {
    let mut list = TaskList::new();
    let mut task = loose_task(0);
    assert!(task.take_exit_value(&mut list).is_none());
    assert_eq!(task.runstate(), RunState::Initing);
}

#[test]
fn bootstrapped_task_is_current() {
    let (system, cpu, joinable) = booted();
    let r = *joinable;
    let task = system.task(&r);
    assert_eq!(task.id, 0);
    assert_eq!(task.name, "bootstrap_task_core_3");
    assert_eq!(task.runstate(), RunState::Runnable);
    assert_eq!(task.running_on_cpu(), Some(3));
    assert_eq!(task.pinned_core(), Some(3));
    assert!(task.is_joinable());
    assert!(!task.is_application());
    assert_eq!(*task.get_env(), "default env");
    assert_eq!(**task.get_namespace(), "kernel namespace");
    assert_eq!(*task.mmi, "kernel mmi");
    assert_eq!(task.with_kstack(|stack| *stack), "boot stack");
    assert_eq!((task.failure_cleanup_function)(r), 99);

    assert_eq!(cpu.fs_base(), 0x7000);
    assert!(get_my_current_task(&cpu) == Some(r));
    assert_eq!(get_task_local_data(&cpu).map(|data| data.task_id), Some(0));
    assert!(get_current_task(&system, &cpu) == Some(r));
    assert_eq!(get_my_current_task_id(&system, &cpu), Some(0));
    assert!(get_task(&system, 0) == Some(r));
    assert!(get_task(&system, 1) == None);
}

#[test]
fn bootstrap_needs_a_namespace() {
    let mut system = System::new(16);
    let mut cpu = Cpu::new(0);
    let result = bootstrap_task(
        &mut system,
        &mut cpu,
        0,
        ManuallyDrop::new("boot stack"),
        Arc::new("kernel mmi"),
        None,
        Arc::new("default env"),
        cleanup,
        |_namespace| panic!("there is no namespace"),
    );
    match result {
        Ok(_) => panic!("bootstrapped"),
        Err(error) => assert_eq!(error, NO_INITIAL_NAMESPACE),
    }
    assert!(get_my_current_task(&cpu) == None);
    assert!(get_task(&system, 0) == None);
    // No ID was used up.
    assert!(boot(&mut system, &mut cpu, 0).is_ok());
    assert!(get_task(&system, 0).is_some());
}

#[test]
fn each_core_bootstraps_its_own_task() {
    let (mut system, cpu, first) = booted();
    let mut other_cpu = Cpu::new(0xb008);
    let second = boot(&mut system, &mut other_cpu, 4).unwrap();
    assert!(*first != *second);
    assert_eq!(system.task(&second).id, 1);
    assert!(get_my_current_task(&cpu) == Some(*first));
    assert!(get_my_current_task(&other_cpu) == Some(*second));
    assert!(get_task(&system, 0) == Some(*first));
    assert!(get_task(&system, 1) == Some(*second));
    assert_eq!(system.task(&second).name, "bootstrap_task_core_4");
}

#[test]
fn listed_id_is_reported() {
    // A task with the ID that the bootstrapped task is going to get is on the list already.
    let mut system = System::new(16);
    let mut cpu = Cpu::new(0);
    let squatter = TaskRef::new(&mut system, loose_task(0));
    assert!(system.add_to_task_list(&squatter) == None);
    match boot(&mut system, &mut cpu, 1) {
        Ok(_) => panic!("bootstrapped"),
        Err(error) => assert_eq!(error, ID_ALREADY_LISTED),
    }
    // The new task is there, it is the current one, but it is an orphan.
    let r = get_my_current_task(&cpu).unwrap();
    assert!(r != *squatter);
    assert!(get_task(&system, 0) == Some(r));
    assert!(!system.task(&r).is_joinable());
    assert!(get_current_task(&system, &cpu) == Some(r));
}

#[test]
fn addresses_are_sign_extended() {
    let mut system = System::new(16);
    let mut cpu = Cpu::new(0);
    let result = bootstrap_task(
        &mut system,
        &mut cpu,
        0,
        ManuallyDrop::new("boot stack"),
        Arc::new("kernel mmi"),
        Some(&Arc::new("kernel namespace")),
        Arc::new("default env"),
        cleanup,
        |_namespace| image(0x0000_8000_1234_5678),
    );
    assert!(result.is_ok());
    assert_eq!(cpu.fs_base(), 0xffff_8000_1234_5678);
}

#[test]
fn new_task_inherits_from_the_current_task() {
    let (mut system, cpu, parent) = booted();
    parent.set_env(&mut system, Arc::new("changed env"));
    let created = Task::<Kernel>::new(
        &mut system,
        &cpu,
        None,
        None,
        cleanup,
        |pages, mmi| {
            assert_eq!(pages, 16);
            assert_eq!(**mmi, "kernel mmi");
            Some("allocated")
        },
        |namespace| {
            assert_eq!(**namespace, "kernel namespace");
            image(0x9000)
        },
    );
    let task = match created {
        Ok(task) => task,
        Err(error) => panic!("{}", error),
    };
    assert_eq!(task.id, 1);
    assert_eq!(task.name, "task_1");
    assert_eq!(*task.get_env(), "changed env");
    assert_eq!(*task.mmi, "kernel mmi");
    assert_eq!(**task.get_namespace(), "kernel namespace");
    assert_eq!(task.with_kstack(|stack| *stack), "allocated");
    assert_eq!(task.runstate(), RunState::Initing);
    assert!(!task.is_application());
    assert!(Arc::ptr_eq(&task.mmi, &system.task(&parent).mmi));
}

#[test]
fn new_task_inherits_from_the_given_parent() {
    let (mut system, cpu, _current) = booted();
    let mut parent = loose_task(50);
    parent.app_crate = Some(Arc::new("app"));
    let parent = TaskRef::new(&mut system, parent);
    let created = Task::<Kernel>::new(
        &mut system,
        &cpu,
        Some("own stack"),
        Some(&parent),
        cleanup,
        |_pages, _mmi| panic!("a stack was given"),
        |namespace| {
            assert_eq!(**namespace, "namespace");
            image(0)
        },
    );
    let task = match created {
        Ok(task) => task,
        Err(error) => panic!("{}", error),
    };
    assert!(task.is_application());
    assert_eq!(**task.app_crate.as_ref().unwrap(), "app");
    assert_eq!(*task.get_env(), "env");
    assert_eq!(*task.mmi, "mmi");
    assert_eq!(task.with_kstack(|stack| *stack), "own stack");
}

#[test]
fn new_task_needs_a_parent_and_a_stack() {
    let mut system = System::new(16);
    let cpu = Cpu::new(0);
    let orphan = Task::<Kernel>::new(
        &mut system,
        &cpu,
        Some("stack"),
        None,
        cleanup,
        |_pages, _mmi| panic!("there is no parent"),
        |_namespace| panic!("there is no parent"),
    );
    assert_eq!(orphan.err(), Some(NO_PARENT_TASK));

    let (mut system, cpu, _parent) = booted();
    let stackless = Task::<Kernel>::new(
        &mut system,
        &cpu,
        None,
        None,
        cleanup,
        |_pages, _mmi| None,
        |_namespace| panic!("there is no stack"),
    );
    assert_eq!(stackless.err(), Some(NO_KERNEL_STACK));
    // No ID was used up.
    let child = spawn(&mut system, &cpu, 0);
    assert_eq!(system.task(&child).id, 1);
}

#[test]
fn task_ids_are_handed_out_in_order() {
    let (mut system, cpu, _parent) = booted();
    for id in 1..20 {
        let child = spawn(&mut system, &cpu, 0);
        assert_eq!(system.task(&child).id, id);
        assert_eq!(system.task(&child).name, format!("task_{}", id));
    }
}

#[test]
fn new_references_are_new() {
    let (mut system, cpu, parent) = booted();
    let a = spawn(&mut system, &cpu, 0);
    let b = spawn(&mut system, &cpu, 0);
    assert!(*a != *b && *a != *parent && *b != *parent);
    let again: TaskRef = *a;
    assert!(*a == again);
    assert!(system.task(&a).is_joinable());
    // A new task is not on the list until it is put there.
    assert!(get_task(&system, 1) == None);
    assert!(system.add_to_task_list(&a) == None);
    assert!(get_task(&system, 1) == Some(*a));
}

#[test]
fn dropped_reference_makes_an_orphan() {
    let (mut system, cpu, _parent) = booted();
    let child = spawn(&mut system, &cpu, 0);
    let r = *child;
    child.drop(&mut system);
    assert!(!system.task(&r).is_joinable());
}

#[test]
fn exit_value_is_taken_once() {
    let (mut system, cpu, _parent) = booted();
    let child = spawn(&mut system, &cpu, 0);
    system.add_to_task_list(&child);
    assert_eq!(child.mark_as_exited(&mut system, Box::new(42i32), NO_REMOVAL), Ok(()));
    assert!(system.task(&child).has_exited());
    assert_eq!(system.task(&child).runstate(), RunState::Exited);
    assert!(get_task(&system, 1) == Some(*child));

    assert_eq!(completed(child.take_exit_value(&mut system)), Some(42));
    assert_eq!(system.task(&child).runstate(), RunState::Reaped);
    assert!(system.task(&child).has_exited());
    assert!(get_task(&system, 1) == None);
    assert!(get_task(&system, 0).is_some());

    assert!(child.take_exit_value(&mut system).is_none());
    assert_eq!(system.task(&child).runstate(), RunState::Reaped);
}

#[test]
fn exit_value_is_not_overwritten() {
    let (mut system, cpu, _parent) = booted();
    let child = spawn(&mut system, &cpu, 0);
    assert_eq!(child.mark_as_exited(&mut system, Box::new(1i32), NO_REMOVAL), Ok(()));
    assert_eq!(child.kill(&mut system, KillReason::Requested, NO_REMOVAL), Err(ALREADY_EXITED));
    assert_eq!(child.mark_as_exited(&mut system, Box::new(2i32), NO_REMOVAL), Err(ALREADY_EXITED));
    assert_eq!(completed(child.take_exit_value(&mut system)), Some(1));
    assert_eq!(child.kill(&mut system, KillReason::Requested, NO_REMOVAL), Err(ALREADY_EXITED));
    assert!(child.take_exit_value(&mut system).is_none());
}

#[test]
fn exited_task_stays_exited() {
    let (mut system, cpu, _parent) = booted();
    let child = spawn(&mut system, &cpu, 0);
    assert_eq!(child.kill(&mut system, KillReason::Exception(14), NO_REMOVAL), Ok(()));
    assert_eq!(child.block(&mut system), Err(RunState::Exited));
    assert_eq!(child.unblock(&mut system), Err(RunState::Exited));
    assert_eq!(child.block_initing_task(&mut system), Err(RunState::Exited));
    assert_eq!(child.make_inited_task_runnable(&mut system), Err(RunState::Exited));
    match child.take_exit_value(&mut system) {
        Some(ExitValue::Killed(KillReason::Exception(14))) => {}
        _ => panic!("wrong exit value"),
    }
    assert_eq!(child.block(&mut system), Err(RunState::Reaped));
    assert_eq!(child.unblock(&mut system), Err(RunState::Reaped));
}

#[test]
fn exited_task_is_removed_from_its_runqueue() {
    let (mut system, cpu, parent) = booted();
    let child = spawn(&mut system, &cpu, 0);
    let r: TaskRef = *child;
    child.set_on_runqueue(&mut system, Some(5));
    assert_eq!(system.task(&child).on_runqueue(), Some(5));
    let mut calls = 0;
    let remove = |task: &TaskRef, runqueue: u8| {
        calls += 1;
        assert!(*task == r);
        assert_eq!(runqueue, 5);
        Ok(())
    };
    assert_eq!(child.kill(&mut system, KillReason::Requested, Some(remove)), Ok(()));
    assert_eq!(calls, 1);
    assert!(system.task(&child).has_exited());

    // A task that has exited already is not removed again.
    let never = |_task: &TaskRef, _runqueue: u8| panic!("removed");
    assert_eq!(child.kill(&mut system, KillReason::Requested, Some(never)), Err(ALREADY_EXITED));
    // A task that is on no runqueue is not removed either.
    assert_eq!(parent.mark_as_exited(&mut system, Box::new(0i32), Some(never)), Ok(()));
}

#[test]
fn exit_succeeds_even_if_the_removal_fails() {
    let (mut system, cpu, parent) = booted();
    parent.set_on_runqueue(&mut system, Some(1));
    let mut calls = 0;
    let fails = |_task: &TaskRef, _runqueue: u8| {
        calls += 1;
        Err("no such runqueue")
    };
    let result = parent.mark_as_killed(&mut system, &cpu, KillReason::Requested, Some(fails));
    assert_eq!(result, Ok(()));
    assert_eq!(calls, 1);
    assert_eq!(system.task(&parent).runstate(), RunState::Exited);
    assert!(parent.take_exit_value(&mut system).is_some());

    let fails = |_task: &TaskRef, _runqueue: u8| Err("no such runqueue");
    let killed = spawn(&mut system, &cpu, 0);
    killed.set_on_runqueue(&mut system, Some(2));
    assert_eq!(killed.kill(&mut system, KillReason::Requested, Some(fails)), Ok(()));
    assert_eq!(killed.kill(&mut system, KillReason::Requested, Some(fails)), Err(ALREADY_EXITED));
    match killed.take_exit_value(&mut system) {
        Some(ExitValue::Killed(KillReason::Requested)) => {}
        _ => panic!("wrong exit value"),
    }
    let exited = spawn(&mut system, &cpu, 0);
    exited.set_on_runqueue(&mut system, Some(2));
    assert_eq!(exited.mark_as_exited(&mut system, Box::new(3i32), Some(fails)), Ok(()));
    assert_eq!(completed(exited.take_exit_value(&mut system)), Some(3));
}

#[test]
fn left_runqueue_is_reported() {
    let (_system, _cpu, parent) = booted();
    let fails = |_task: &TaskRef, _runqueue: u8| Err("no such runqueue");
    assert_eq!(parent.leave_runqueue(Ok(Some(2)), Some(fails)), Err("no such runqueue"));
    assert_eq!(parent.leave_runqueue(Ok(None), Some(fails)), Ok(()));
    assert_eq!(parent.leave_runqueue(Ok(Some(2)), NO_REMOVAL), Ok(()));
    assert_eq!(parent.leave_runqueue(Err("failed"), Some(fails)), Err("failed"));
}

#[test]
fn only_the_current_task_is_marked_as_killed() {
    let (mut system, cpu, parent) = booted();
    let child = spawn(&mut system, &cpu, 0);
    let result = child.mark_as_killed(&mut system, &cpu, KillReason::Requested, NO_REMOVAL);
    assert_eq!(result, Err(KILLED_OTHER_TASK));
    assert!(!system.task(&child).has_exited());

    let nowhere = Cpu::new(0);
    let result = parent.mark_as_killed(&mut system, &nowhere, KillReason::Requested, NO_REMOVAL);
    assert_eq!(result, Err(KILLED_WITHOUT_CURRENT_TASK));

    let result = parent.mark_as_killed(&mut system, &cpu, KillReason::Requested, NO_REMOVAL);
    assert_eq!(result, Ok(()));
    assert_eq!(system.task(&parent).runstate(), RunState::Exited);
    let result = parent.mark_as_killed(&mut system, &cpu, KillReason::Requested, NO_REMOVAL);
    assert_eq!(result, Err(ALREADY_EXITED));
}

#[test]
fn changes_go_to_one_task() {
    let (mut system, cpu, parent) = booted();
    let a = spawn(&mut system, &cpu, 0);
    let b = spawn(&mut system, &cpu, 0);
    assert_eq!(a.make_inited_task_runnable(&mut system), Ok(RunState::Initing));
    assert_eq!(a.block(&mut system), Ok(RunState::Runnable));
    assert_eq!(system.task(&a).runstate(), RunState::Blocked);
    assert_eq!(system.task(&b).runstate(), RunState::Initing);
    assert_eq!(system.task(&parent).runstate(), RunState::Runnable);
    assert_eq!(b.block_initing_task(&mut system), Ok(RunState::Initing));
    assert_eq!(b.unblock(&mut system), Ok(RunState::Blocked));
    assert_eq!(system.task(&b).runstate(), RunState::Runnable);
}

#[test]
fn join_is_refused() {
    let (mut system, cpu, parent) = booted();
    let child = spawn(&mut system, &cpu, 0);
    assert_eq!(child.join(&Cpu::new(0), true), Err(JOIN_WITHOUT_CURRENT_TASK));
    assert_eq!(parent.join(&cpu, true), Err(JOIN_OF_CURRENT_TASK));
    assert_eq!(parent.join(&cpu, false), Err(JOIN_OF_CURRENT_TASK));
    assert_eq!(child.join(&cpu, false), Err(JOIN_WITHOUT_INTERRUPTS));
    assert_eq!(child.join(&cpu, true), Ok(JoinPhase::AwaitExit));
}

#[test]
fn join_waits_for_exit_and_for_the_stop() {
    let (mut system, mut cpu, parent) = booted();
    let child = spawn(&mut system, &cpu, 0x2000);
    let mut phase = child.join(&cpu, true).unwrap();
    phase = child.join_step(&system, phase);
    assert_eq!(phase, JoinPhase::AwaitExit);

    // The child runs on another core and exits there.
    let mut other_cpu = Cpu::new(0);
    let idle = boot(&mut system, &mut other_cpu, 4).unwrap();
    match Task::task_switch(&mut system, &mut other_cpu, &idle, *child, 4, 1) {
        TaskSwitch::Switch(_) => {}
        TaskSwitch::Unneeded(_) => panic!("not switched"),
    }
    assert_eq!(child.post_context_switch_action(&mut system), 1);
    assert_eq!(child.mark_as_exited(&mut system, Box::new(8i32), NO_REMOVAL), Ok(()));
    phase = child.join_step(&system, phase);
    assert_eq!(phase, JoinPhase::AwaitStop);
    phase = child.join_step(&system, phase);
    assert_eq!(phase, JoinPhase::AwaitStop);

    match Task::task_switch(&mut system, &mut other_cpu, &child, *idle, 4, 2) {
        TaskSwitch::Switch(_) => {}
        TaskSwitch::Unneeded(_) => panic!("not switched"),
    }
    phase = child.join_step(&system, phase);
    assert_eq!(phase, JoinPhase::Joined);
    phase = child.join_step(&system, phase);
    assert_eq!(phase, JoinPhase::Joined);
    assert_eq!(completed(child.take_exit_value(&mut system)), Some(8));
    // The waiting core was not affected.
    assert!(get_my_current_task(&cpu) == Some(*parent));
    assert!(init_current_task(&mut system, &mut cpu, 0, None).is_err());
}

#[test]
fn switch_to_the_same_task_is_unneeded() {
    let (mut system, mut cpu, parent) = booted();
    match Task::task_switch(&mut system, &mut cpu, &parent, *parent, 3, 77) {
        TaskSwitch::Unneeded(guard) => assert_eq!(guard, 77),
        TaskSwitch::Switch(_) => panic!("switched"),
    }
    assert_eq!(system.task(&parent).running_on_cpu(), Some(3));
    assert!(get_my_current_task(&cpu) == Some(*parent));

    // Tasks with the same ID count as the same.
    let twin = TaskRef::new(&mut system, loose_task(0));
    match Task::task_switch(&mut system, &mut cpu, &parent, *twin, 3, 78) {
        TaskSwitch::Unneeded(guard) => assert_eq!(guard, 78),
        TaskSwitch::Switch(_) => panic!("switched"),
    }
    assert_eq!(system.task(&twin).running_on_cpu(), None);
}

#[test]
fn switch_makes_the_next_task_current() {
    let (mut system, mut cpu, parent) = booted();
    let child = spawn(&mut system, &cpu, 0x2000);
    *child.saved_sp(&mut system) = 0xcafe;
    match Task::task_switch(&mut system, &mut cpu, &parent, *child, 3, 11) {
        TaskSwitch::Switch(context) => {
            assert!(context.prev == *parent);
            assert_eq!(context.next_saved_sp, 0xcafe);
            assert_eq!(context.routine, ContextSwitchRoutine::Regular);
        }
        TaskSwitch::Unneeded(_) => panic!("not switched"),
    }
    assert_eq!(system.task(&parent).running_on_cpu(), None);
    assert_eq!(system.task(&child).running_on_cpu(), Some(3));
    assert_eq!(cpu.fs_base(), 0x2000);
    assert!(get_my_current_task(&cpu) == Some(*child));
    // The TLS area of the child is active, in which no current task was set yet.
    assert!(get_current_task(&system, &cpu) == None);
    assert_eq!(get_my_current_task_id(&system, &cpu), Some(0));
    assert_eq!(child.post_context_switch_action(&mut system), 11);

    // The child sets itself, as the first thing it does.
    let child_id = system.task(&child).id;
    assert!(init_current_task(&mut system, &mut cpu, child_id, Some(*child)) == Ok(*child));
    assert!(get_current_task(&system, &cpu) == Some(*child));
    assert_eq!(get_my_current_task_id(&system, &cpu), Some(child_id));

    // And back.
    match Task::task_switch(&mut system, &mut cpu, &child, *parent, 3, 12) {
        TaskSwitch::Switch(context) => assert!(context.prev == *child),
        TaskSwitch::Unneeded(_) => panic!("not switched"),
    }
    assert_eq!(parent.post_context_switch_action(&mut system), 12);
    assert!(get_my_current_task(&cpu) == Some(*parent));
    assert!(get_current_task(&system, &cpu) == Some(*parent));
    assert_eq!(system.task(&parent).running_on_cpu(), Some(3));
    assert_eq!(system.task(&child).running_on_cpu(), None);
    assert_eq!(cpu.fs_base(), 0x7000);
}

#[test]
fn switch_from_an_exited_task_cleans_up() {
    let (mut system, mut cpu, parent) = booted();
    let child = spawn(&mut system, &cpu, 0x2000);
    let child_id = system.task(&child).id;
    match Task::task_switch(&mut system, &mut cpu, &parent, *child, 3, 1) {
        TaskSwitch::Switch(_) => {}
        TaskSwitch::Unneeded(_) => panic!("not switched"),
    }
    assert_eq!(child.post_context_switch_action(&mut system), 1);
    assert!(init_current_task(&mut system, &mut cpu, child_id, Some(*child)).is_ok());
    assert_eq!(child.mark_as_exited(&mut system, Box::new(0i32), NO_REMOVAL), Ok(()));
    match Task::task_switch(&mut system, &mut cpu, &child, *parent, 3, 2) {
        TaskSwitch::Switch(_) => {}
        TaskSwitch::Unneeded(_) => panic!("not switched"),
    }
    assert_eq!(parent.post_context_switch_action(&mut system), 2);
    assert!(get_current_task(&system, &cpu) == Some(*parent));

    // The exited task has lost its local data: a core that switched to it again would not
    // tell it as the current task, and its TLS area tells no current task any more.
    match Task::task_switch(&mut system, &mut cpu, &parent, *child, 3, 3) {
        TaskSwitch::Switch(_) => {}
        TaskSwitch::Unneeded(_) => panic!("not switched"),
    }
    assert_eq!(cpu.fs_base(), 0x2000);
    assert!(get_my_current_task(&cpu) == Some(*parent));
    assert!(get_current_task(&system, &cpu) == None);
    assert_eq!(get_my_current_task_id(&system, &cpu), Some(child_id));
}

#[test]
fn context_switch_routines_fit_the_simd_levels() {
    let (regular, sse, avx) = (SimdExt::Regular, SimdExt::SSE, SimdExt::AVX);
    let expected = [
        (regular, regular, ContextSwitchRoutine::Regular),
        (regular, sse, ContextSwitchRoutine::RegularToSse),
        (regular, avx, ContextSwitchRoutine::RegularToAvx),
        (sse, regular, ContextSwitchRoutine::SseToRegular),
        (sse, sse, ContextSwitchRoutine::Sse),
        (sse, avx, ContextSwitchRoutine::SseToAvx),
        (avx, regular, ContextSwitchRoutine::AvxToRegular),
        (avx, sse, ContextSwitchRoutine::AvxToSse),
        (avx, avx, ContextSwitchRoutine::Avx),
    ];
    for (prev, next, routine) in expected {
        assert_eq!(ContextSwitchRoutine::between(prev, next), routine);
    }
}

#[test]
fn kill_handler_is_taken_once() {
    let (mut system, cpu, _parent) = booted();
    assert!(take_kill_handler(&mut system, &cpu).is_none());
    assert_eq!(set_kill_handler(&mut system, &cpu, Box::new(|_reason| 5)), Ok(()));
    assert_eq!(set_kill_handler(&mut system, &cpu, Box::new(|_reason| 6)), Ok(()));
    let handler = take_kill_handler(&mut system, &cpu).unwrap();
    assert_eq!(handler(&KillReason::Requested), 6);
    assert!(take_kill_handler(&mut system, &cpu).is_none());
}

#[test]
fn kill_handler_needs_a_current_task() {
    let (mut system, _cpu, _parent) = booted();
    let nowhere = Cpu::new(0);
    let result = set_kill_handler(&mut system, &nowhere, Box::new(|_reason| 0));
    assert_eq!(result, Err(NO_CURRENT_TASK));
    assert!(take_kill_handler(&mut system, &nowhere).is_none());
}

#[test]
fn dropped_task_drops_its_kill_handler() {
    static DROPPED: AtomicUsize = AtomicUsize::new(0);
    struct Canary;
    impl Drop for Canary {
        fn drop(&mut self) {
            DROPPED.fetch_add(1, Ordering::SeqCst);
        }
    }
    let (mut system, cpu, _parent) = booted();
    let canary = Canary;
    let handler = move |_reason: &KillReason<Payload>| {
        let _kept = &canary;
        0
    };
    assert_eq!(set_kill_handler(&mut system, &cpu, Box::new(handler)), Ok(()));
    assert_eq!(DROPPED.load(Ordering::SeqCst), 0);
    drop(system);
    assert_eq!(DROPPED.load(Ordering::SeqCst), 1);
}

#[test]
fn current_task_is_passed_to_the_function() {
    let (system, cpu, parent) = booted();
    assert_eq!(with_current_task(&system, &cpu, |r| *r == *parent), Ok(true));
    assert_eq!(with_current_task(&system, &Cpu::new(0), |_r| true), Err(()));
    assert!(get_current_task(&system, &Cpu::new(0)) == None);
    assert_eq!(get_my_current_task_id(&system, &Cpu::new(0)), Some(0));
}

#[test]
fn current_task_is_set_once() {
    let (mut system, cpu, _parent) = booted();
    let child = spawn(&mut system, &cpu, 0);
    let mut core = Cpu::new(0);
    // The ID must match, and without a reference the task must be on the list.
    assert!(init_current_task(&mut system, &mut core, 9, Some(*child)) == Err(()));
    assert!(init_current_task(&mut system, &mut core, 1, None) == Err(()));
    assert!(get_current_task(&system, &core) == None);

    system.add_to_task_list(&child);
    assert!(init_current_task(&mut system, &mut core, 1, None) == Ok(*child));
    assert!(get_current_task(&system, &core) == Some(*child));
    assert_eq!(get_my_current_task_id(&system, &core), Some(1));
    assert!(init_current_task(&mut system, &mut core, 1, Some(*child)) == Err(()));
    assert!(init_current_task(&mut system, &mut core, 0, None) == Err(()));
}

#[test]
fn exited_current_task_is_taken_away() {
    let (mut system, mut cpu, parent) = booted();
    assert!(deinit_current_task(&mut system, &mut Cpu::new(0)) == Err(()));
    assert!(deinit_current_task(&mut system, &mut cpu) == Err(()));
    assert!(get_current_task(&system, &cpu) == Some(*parent));
    assert_eq!(parent.mark_as_exited(&mut system, Box::new(0i32), NO_REMOVAL), Ok(()));
    assert!(deinit_current_task(&mut system, &mut cpu) == Ok(*parent));
    assert!(get_current_task(&system, &cpu) == None);
    assert!(deinit_current_task(&mut system, &mut cpu) == Err(()));
    // Another task can be set now.
    let child = spawn(&mut system, &cpu, 0);
    assert!(init_current_task(&mut system, &mut cpu, 1, Some(*child)) == Ok(*child));
    assert!(get_current_task(&system, &cpu) == Some(*child));
}

#[test]
fn killed_task_that_is_not_running_loses_its_local_data() {
    let (mut system, mut cpu, parent) = booted();
    let child = spawn(&mut system, &cpu, 0x2000);
    assert_eq!(child.kill(&mut system, KillReason::Requested, NO_REMOVAL), Ok(()));
    match Task::task_switch(&mut system, &mut cpu, &parent, *child, 3, 1) {
        TaskSwitch::Switch(_) => {}
        TaskSwitch::Unneeded(_) => panic!("not switched"),
    }
    assert!(get_my_current_task(&cpu) == Some(*parent));
}

#[test]
fn task_lists_find_tasks_by_id() {
    let (mut system, cpu, parent) = booted();
    let child = spawn(&mut system, &cpu, 0);
    let mut list = TaskList::new();
    assert!(list.get(1) == None);
    assert!(list.insert(1, *child) == None);
    assert!(list.insert(1, *parent) == Some(*child));
    assert!(list.get(1) == Some(*parent));
    assert!(list.get(2) == None);
    assert!(list.remove(1) == Some(*parent));
    assert!(list.remove(1) == None);
    assert!(list.get(1) == None);
}

#[test]
fn exit_value_is_kept_until_it_is_taken() {
    let (mut system, mut cpu, boot_task) = booted();
    let child = spawn(&mut system, &cpu, 0x9000);
    assert_eq!(child.make_inited_task_runnable(&mut system), Ok(RunState::Initing));
    assert_eq!(child.mark_as_exited(&mut system, Box::new(23i32), NO_REMOVAL), Ok(()));

    assert_eq!(child.block(&mut system), Err(RunState::Exited));
    child.set_env(&mut system, Arc::new("other env"));
    assert_eq!(child.kill(&mut system, KillReason::Requested, NO_REMOVAL), Err(ALREADY_EXITED));
    assert_eq!(boot_task.block(&mut system), Ok(RunState::Runnable));
    let other = spawn(&mut system, &cpu, 0xa000);
    let _ = Task::task_switch(&mut system, &mut cpu, &boot_task, *other, 3, 7);
    assert_eq!(completed(child.take_exit_value(&mut system)), Some(23));
}

#[test]
fn orphan_stays_an_orphan() {
    let (mut system, cpu, _boot_task) = booted();
    let child = spawn(&mut system, &cpu, 0x9000);
    let r: TaskRef = *child;
    assert!(system.task(&r).is_joinable());
    assert_eq!(r.make_inited_task_runnable(&mut system), Ok(RunState::Initing));
    assert_eq!(r.block(&mut system), Ok(RunState::Runnable));
    assert!(system.task(&r).is_joinable());

    child.drop(&mut system);
    assert_eq!(r.unblock(&mut system), Ok(RunState::Blocked));
    assert_eq!(r.kill(&mut system, KillReason::Requested, NO_REMOVAL), Ok(()));
    assert!(!system.task(&r).is_joinable());
    assert!(r.take_exit_value(&mut system).is_some());
    assert!(!system.task(&r).is_joinable());
}

#[test]
fn core_runs_one_task() {
    let (mut system, mut cpu, first) = booted();
    let mut other_cpu = Cpu::new(0);
    let elsewhere = boot(&mut system, &mut other_cpu, 5).unwrap();
    let second = spawn(&mut system, &cpu, 0x9000);
    let third = spawn(&mut system, &cpu, 0xa000);
    let _ = Task::task_switch(&mut system, &mut cpu, &first, *second, 3, 1);
    let _ = Task::task_switch(&mut system, &mut cpu, &second, *third, 3, 2);
    assert_eq!(system.task(&first).running_on_cpu(), None);
    assert_eq!(system.task(&second).running_on_cpu(), None);
    assert_eq!(system.task(&third).running_on_cpu(), Some(3));
    assert_eq!(system.task(&elsewhere).running_on_cpu(), Some(5));
    assert_eq!(system.task(&elsewhere).pinned_core(), Some(5));
    assert_eq!(system.task(&elsewhere).on_runqueue(), None);
    assert!(system.task(&elsewhere).is_runnable());
}

#[test]
fn joined_task_gives_its_exit_value() {
    let (mut system, cpu, _boot_task) = booted();
    let child = spawn(&mut system, &cpu, 0x9000);
    let mut phase = child.join(&cpu, true).unwrap();
    phase = child.join_step(&system, phase);
    assert_eq!(phase, JoinPhase::AwaitExit);
    assert_eq!(child.mark_as_exited(&mut system, Box::new(-4i32), NO_REMOVAL), Ok(()));
    phase = child.join_step(&system, phase);
    phase = child.join_step(&system, phase);
    assert_eq!(phase, JoinPhase::Joined);
    assert_eq!(completed(child.take_exit_value(&mut system)), Some(-4));
}

#[test]
fn ended_task_is_released() {
    let (mut system, mut cpu, parent) = booted();
    let child = spawn(&mut system, &cpu, 0x2000);
    let r: TaskRef = *child;
    let child_id = system.task(&r).id;
    assert!(system.add_to_task_list(&r).is_none());
    assert!(system.release(&r, &vec![&cpu]).is_none());

    let _ = Task::task_switch(&mut system, &mut cpu, &parent, r, 3, 1);
    assert_eq!(r.post_context_switch_action(&mut system), 1);
    assert!(init_current_task(&mut system, &mut cpu, child_id, None) == Ok(r));
    assert_eq!(r.mark_as_exited(&mut system, Box::new(6i32), NO_REMOVAL), Ok(()));
    assert!(system.release(&r, &vec![&cpu]).is_none());

    let _ = Task::task_switch(&mut system, &mut cpu, &r, *parent, 3, 2);
    assert_eq!(completed(r.take_exit_value(&mut system)), Some(6));
    // The parent still holds the local data of the child.
    assert!(system.release(&r, &vec![&cpu]).is_none());
    assert_eq!(parent.post_context_switch_action(&mut system), 2);
    // The joinable reference is still there.
    assert!(system.release(&r, &vec![&cpu]).is_none());
    child.drop(&mut system);

    let released = system.release(&r, &vec![&cpu]).unwrap();
    assert_eq!(released.id, child_id);
    assert_eq!(released.runstate(), RunState::Reaped);
    assert_eq!(released.with_kstack(|stack| *stack), "child stack");
    assert!(!system.has(&r));
    assert!(system.has(&parent));
    assert!(get_my_current_task(&cpu) == Some(*parent));

    // The reference does not come to refer to another task.
    let other = spawn(&mut system, &cpu, 0x3000);
    assert!(*other != r);
    assert!(!system.has(&r));
}

#[test]
fn task_that_a_core_uses_is_not_released() {
    let (mut system, mut cpu, parent) = booted();
    let child = spawn(&mut system, &cpu, 0x2000);
    // Killed while it runs nowhere, and switched to all the same.
    assert_eq!(child.kill(&mut system, KillReason::Requested, NO_REMOVAL), Ok(()));
    let _ = Task::task_switch(&mut system, &mut cpu, &parent, *child, 3, 1);
    assert!(child.take_exit_value(&mut system).is_some());
    let r: TaskRef = *child;
    child.drop(&mut system);
    assert!(system.release(&r, &vec![&cpu]).is_none());
    let _ = Task::task_switch(&mut system, &mut cpu, &r, *parent, 3, 2);
    assert!(system.release(&r, &vec![&cpu]).is_some());
}

#[test]
fn killed_task_is_released() {
    let (mut system, cpu, _parent) = booted();
    let child = spawn(&mut system, &cpu, 0x2000);
    assert!(system.add_to_task_list(&child).is_none());
    assert_eq!(child.kill(&mut system, KillReason::Requested, NO_REMOVAL), Ok(()));
    let r: TaskRef = *child;
    child.drop(&mut system);
    assert!(system.release(&r, &vec![&cpu]).is_none());
    assert!(system.find_releasable(&vec![&cpu]).is_none());
    assert!(r.take_exit_value(&mut system).is_some());
    assert!(system.find_releasable(&vec![&cpu]) == Some(r));
    assert!(system.release(&r, &vec![&cpu]).is_some());
    assert!(!system.has(&r));
}

#[test]
fn borrowed_current_task_stays() {
    let (mut system, mut cpu, parent) = booted();
    let first = borrow_current_task(&mut system, &mut cpu).unwrap();
    let second = borrow_current_task(&mut system, &mut cpu).unwrap();
    assert!(*first.get() == *parent);
    assert_eq!(parent.mark_as_exited(&mut system, Box::new(0i32), NO_REMOVAL), Ok(()));
    assert!(deinit_current_task(&mut system, &mut cpu).is_err());
    first.end(&mut system, &mut cpu);
    assert!(deinit_current_task(&mut system, &mut cpu).is_err());
    second.end(&mut system, &mut cpu);
    assert!(deinit_current_task(&mut system, &mut cpu) == Ok(*parent));
    assert!(borrow_current_task(&mut system, &mut cpu).is_none());
}

#[test]
fn task_list_is_walked_in_order() {
    let (mut system, cpu, _parent) = booted();
    assert_eq!(system.task_list().ids(), vec![0]);
    for _ in 0..4 {
        let child = spawn(&mut system, &cpu, 0);
        if system.task(&child).id != 2 {
            assert!(system.add_to_task_list(&child).is_none());
        }
    }
    assert_eq!(system.task_list().ids(), vec![0, 1, 3, 4]);
    assert!(system.task_list().get(3).is_some());
    assert_eq!(TaskList::new().ids(), Vec::<usize>::new());
}

#[test]
fn references_show_their_tasks() {
    let (system, _cpu, parent) = booted();
    let task = system.task(&parent).debug_string(false);
    assert_eq!((*parent).debug_string(&system, false), format!("TaskRef({})", task));
    assert_eq!(
        parent.debug_string(&system, false),
        format!("JoinableTaskRef {{ task: TaskRef({}) }}", task)
    );
    assert_eq!(
        (*parent).debug_string(&system, true),
        "TaskRef(Task { name: \"bootstrap_task_core_3\", id: 0, running_on: Some(3), \
         runstate: Runnable, pinned: \"<Locked>\" })"
    );
}

#[test]
fn equal_references_hash_alike() {
    let hash = |r: &TaskRef| {
        let mut hasher = DefaultHasher::new();
        r.hash(&mut hasher);
        hasher.finish()
    };
    let (mut system, cpu, parent) = booted();
    let child = spawn(&mut system, &cpu, 0);
    let again: TaskRef = *child;
    assert!(again == *child);
    assert_eq!(hash(&again), hash(&child));
    assert_ne!(hash(&again), hash(&parent));
}

#[test]
fn counted_references_keep_the_task() {
    let (mut system, cpu, _parent) = booted();
    let child = spawn(&mut system, &cpu, 0x2000);
    let r: TaskRef = *child;
    let first = system.share(&r);
    let second = system.share(&first);
    assert!(*first == r && *second == r);
    assert_eq!(system.references(&r), 2);
    assert_eq!(child.kill(&mut system, KillReason::Requested, NO_REMOVAL), Ok(()));
    assert!(child.take_exit_value(&mut system).is_some());
    child.drop(&mut system);
    assert!(system.release(&r, &vec![&cpu]).is_none());
    assert!(first.drop(&mut system, &vec![&cpu]).is_none());
    assert_eq!(system.references(&r), 1);
    assert!(system.has(&r));
    let released = second.drop(&mut system, &vec![&cpu]);
    assert_eq!(released.map(|task| task.id), Some(1));
    assert!(!system.has(&r));
}

#[test]
fn states_of_a_new_task_can_be_changed() {
    let mut task = loose_task(4);
    task.set_name(String::from("named"));
    task.set_mmi(Arc::new("other mmi"));
    task.set_namespace(Arc::new("other namespace"));
    task.set_app_crate(Some(Arc::new("app")));
    task.set_env(Arc::new("other env"));
    task.set_idle(true);
    task.set_simd(SimdExt::AVX);
    task.set_failure_cleanup_function(|_task| 7);
    assert_eq!(task.task_id(), 4);
    assert_eq!(task.get_name(), "named");
    assert_eq!(*task.shared_mmi(), "other mmi");
    assert_eq!(**task.get_namespace(), "other namespace");
    assert_eq!(task.shared_app_crate(), Some(Arc::new("app")));
    assert!(task.is_application());
    assert_eq!(*task.get_env(), "other env");
    assert!(task.is_idle());
    assert_eq!(task.simd_level(), SimdExt::AVX);
    assert!(!task.has_kill_handler());

    let inner = task.inner_mut();
    inner.set_saved_sp(0x10);
    inner.set_kstack("other stack");
    inner.set_pinned_core(Some(2));
    inner.set_restart_info(Some(RestartInfo { argument: Box::new(1u8), func: Box::new(2u8) }));
    assert_eq!(inner.get_saved_sp(), 0x10);
    assert_eq!(*inner.get_kstack(), "other stack");
    assert_eq!(inner.get_pinned_core(), Some(2));
    assert!(inner.get_restart_info().is_some());

    let mut system = System::new(16);
    let added = TaskRef::new(&mut system, task);
    assert_eq!((system.task(&added).get_failure_cleanup_function())(*added), 7);
    assert_eq!(system.task(&added).pinned_core(), Some(2));
    assert!(system.task(&added).is_restartable());
}

#[test]
fn switch_picks_the_routine_for_the_tasks() {
    let (mut system, mut cpu, parent) = booted();
    let mut task = loose_task(9);
    task.set_simd(SimdExt::SSE);
    let child = TaskRef::new(&mut system, task);
    match Task::task_switch(&mut system, &mut cpu, &parent, *child, 3, 1) {
        TaskSwitch::Switch(context) => {
            assert_eq!(context.routine, ContextSwitchRoutine::RegularToSse)
        }
        TaskSwitch::Unneeded(_) => panic!("not switched"),
    }
}
