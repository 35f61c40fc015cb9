//! What holds of every call that makes a text or copies what is known about a panic, told by what goes
//! into the call and what comes out.
use crate::bootstrap;
use crate::cells::OptionU8;
use crate::current;
use crate::exit::KillReason;
use crate::lifecycle;
use crate::panic_info::{PanicInfoOwned, PanicReport};
use crate::run_state::RunState;
use crate::system::TaskSystem;
use crate::task::{Platform, Task, ALREADY_EXITED};
use crate::task_ref::{JoinableTaskRef, TaskRef};
use crate::text::{
    append_decimal, append_hexadecimal, append_option, append_quoted, decimal, hexadecimal, quoted,
};
use vstd::prelude::*;

verus! {

/// The value of a digit, which is negative for any other character.
pub open spec fn digit_value(c: char) -> int {
    if '0' <= c <= '9' {
        c as int - '0' as int
    } else if 'A' <= c <= 'F' {
        10 + (c as int - 'A' as int)
    } else {
        -1
    }
}

/// The value of a sequence of digits.
pub open spec fn value_of(digits: Seq<char>, base: int) -> int
    decreases digits.len(),
{
    if digits.len() == 0 {
        0
    } else {
        value_of(digits.drop_last(), base) * base + digit_value(digits.last())
    }
}

/// The digits are those of a number, without needless zeros in front.
pub open spec fn is_numeral(digits: Seq<char>, base: int, n: int) -> bool {
    &&& digits.len() > 0
    &&& forall|i: int| 0 <= i < digits.len() ==> 0 <= digit_value(#[trigger] digits[i]) < base
    &&& value_of(digits, base) == n
    &&& digits[0] == '0' ==> digits.len() == 1
}

/// A decimal numeral consists of the digits of its number.
pub proof fn law_decimal_numerals(n: nat)
    ensures
        is_numeral(decimal(n), 10, n as int),
    decreases n,
{
    if n < 10 {
        assert(decimal(n).drop_last() =~= Seq::<char>::empty());
        assert(value_of(decimal(n).drop_last(), 10) == 0);
    } else {
        law_decimal_numerals(n / 10);
        assert(decimal(n).drop_last() =~= decimal(n / 10));
        assert(decimal(n)[0] == decimal(n / 10)[0]);
        if decimal(n)[0] == '0' {
            let first = decimal(n / 10);
            assert(first.drop_last() =~= Seq::<char>::empty());
            assert(value_of(first.drop_last(), 10) == 0);
        }
    }
}

/// A hexadecimal numeral consists of the digits of its number.
pub proof fn law_hexadecimal_numerals(n: nat)
    ensures
        is_numeral(hexadecimal(n), 16, n as int),
    decreases n,
{
    if n < 16 {
        assert(hexadecimal(n).drop_last() =~= Seq::<char>::empty());
        assert(value_of(hexadecimal(n).drop_last(), 16) == 0);
    } else {
        law_hexadecimal_numerals(n / 16);
        assert(hexadecimal(n).drop_last() =~= hexadecimal(n / 16));
        assert(hexadecimal(n)[0] == hexadecimal(n / 16)[0]);
        if hexadecimal(n)[0] == '0' {
            let first = hexadecimal(n / 16);
            assert(first.drop_last() =~= Seq::<char>::empty());
            assert(value_of(first.drop_last(), 16) == 0);
        }
    }
}

/// Two numbers with the same numeral are the same.
pub proof fn law_numerals_tell_their_numbers(m: nat, n: nat)
    ensures
        decimal(m) == decimal(n) ==> m == n,
        hexadecimal(m) == hexadecimal(n) ==> m == n,
{
    law_decimal_numerals(m);
    law_decimal_numerals(n);
    law_hexadecimal_numerals(m);
    law_hexadecimal_numerals(n);
}

/// What is appended follows the text that was there: the digits of a number, `None` or `Some` with the
/// number in it, or the quoted form of a string.
pub proof fn law_appended_texts(n: u64, byte: u8, value: Option<u8>, s: &str)
    ensures
        forall|out: &mut String| #[trigger]
            call_ensures(append_decimal, (out, n), ()) ==> {
                let tail = (*final(out))@.skip((*out)@.len() as int);
                &&& (*final(out))@ == (*out)@ + tail
                &&& is_numeral(tail, 10, n as int)
            },
        forall|out: &mut String| #[trigger]
            call_ensures(append_hexadecimal, (out, byte), ()) ==> {
                let tail = (*final(out))@.skip((*out)@.len() as int);
                &&& (*final(out))@ == (*out)@ + tail
                &&& is_numeral(tail, 16, byte as int)
            },
        forall|out: &mut String| #[trigger]
            call_ensures(append_option, (out, value), ()) ==> (*final(out))@ == (*out)@ + (
            if value is Some {
                "Some("@ + decimal(value->0 as nat) + ")"@
            } else {
                "None"@
            }),
        forall|out: &mut String| #[trigger]
            call_ensures(append_quoted, (out, s), ()) ==> (*final(out))@ == (*out)@ + quoted(s@),
{
    law_decimal_numerals(n as nat);
    law_hexadecimal_numerals(byte as nat);
    assert forall|out: &mut String| #[trigger] call_ensures(append_decimal, (out, n), ()) implies (
    *final(out))@.skip((*out)@.len() as int) == decimal(n as nat) by {
        assert((*final(out))@.skip((*out)@.len() as int) =~= decimal(n as nat));
    }
    assert forall|out: &mut String| #[trigger]
        call_ensures(append_hexadecimal, (out, byte), ()) implies (*final(out))@.skip(
        (*out)@.len() as int,
    ) == hexadecimal(byte as nat) by {
        assert((*final(out))@.skip((*out)@.len() as int) =~= hexadecimal(byte as nat));
    }
}

/// A run state is called by its name.
pub proof fn law_run_state_names(state: RunState, name: &'static str)
    requires
        call_ensures(RunState::name, (&state,), name),
    ensures
        state == RunState::Initing ==> name@ == "Initing"@,
        state == RunState::Runnable ==> name@ == "Runnable"@,
        state == RunState::Blocked ==> name@ == "Blocked"@,
        state == RunState::Exited ==> name@ == "Exited"@,
        state == RunState::Reaped ==> name@ == "Reaped"@,
{
}

/// The texts that show a task hold its name and its ID, and for debugging where it runs, its run state and
/// where it is pinned.
pub proof fn law_task_texts<P: Platform>(task: Task<P>, locked: bool, state: &'static str)
    requires
        call_ensures(RunState::name, (&task@.runstate,), state),
    ensures
        forall|out: String| #[trigger]
            call_ensures(Task::<P>::to_string, (&task,), out) ==> out@ == task@.name + "{"@
                + decimal(task@.id as nat) + "}"@,
        forall|out: String| #[trigger]
            call_ensures(Task::<P>::debug_string, (&task, locked), out) ==> out@
                == "Task { name: "@ + quoted(task@.name) + ", id: "@ + decimal(task@.id as nat)
                + ", running_on: "@ + (match task@.running_on_cpu {
                Some(core) => "Some("@ + decimal(core as nat) + ")"@,
                None => "None"@,
            }) + ", runstate: "@ + state@ + ", pinned: "@ + (if locked {
                "\"<Locked>\""@
            } else {
                match task@.inner.pinned_core {
                    Some(core) => "Some("@ + decimal(core as nat) + ")"@,
                    None => "None"@,
                }
            }) + " }"@,
{
}

/// The text that shows a reference shows the task behind it.
pub proof fn law_reference_texts<P: Platform>(
    system: TaskSystem<P>,
    r: TaskRef,
    joinable: JoinableTaskRef,
    task: &Task<P>,
    locked: bool,
    text: String,
)
    requires
        call_ensures(TaskSystem::<P>::task, (&system, &r), task),
        call_ensures(Task::<P>::debug_string, (task, locked), text),
        joinable.task() == r,
    ensures
        forall|out: String| #[trigger]
            call_ensures(TaskRef::debug_string::<P>, (&r, &system, locked), out) ==> out@
                == "TaskRef("@ + text@ + ")"@,
        forall|out: String| #[trigger]
            call_ensures(JoinableTaskRef::debug_string::<P>, (&joinable, &system, locked), out)
                ==> out@ == "JoinableTaskRef { task: "@ + ("TaskRef("@ + text@ + ")"@) + " }"@,
{
}

/// The text of a panic tells its place and its message, and that of a kill reason tells the reason.
pub proof fn law_kill_reason_texts<A>(
    info: PanicInfoOwned<A>,
    reason: KillReason<A>,
    text: String,
    out: String,
)
    requires
        call_ensures(PanicInfoOwned::<A>::to_string, (&info,), text),
        call_ensures(KillReason::<A>::to_string, (&reason,), out),
    ensures
        text@ == info.file@ + ":"@ + decimal(info.line as nat) + ":"@ + decimal(
            info.column as nat,
        ) + " -- "@ + quoted(info.msg@),
        reason is Requested ==> out@ == "Requested"@,
        reason == KillReason::Panic(info) ==> out@ == "Panicked at "@ + text@,
        reason matches KillReason::Exception(num) ==> out@ == "Exception "@ + "0x"@ + hexadecimal(
            num as nat,
        ) + "("@ + decimal(num as nat) + ")"@,
{
}

/// What is copied of a panic report is its message and its location, each blank where there is none.
/// A payload comes alone.
pub proof fn law_panic_info<A>(
    report: PanicReport,
    copied: PanicInfoOwned<A>,
    payload: A,
    forwarded: PanicInfoOwned<A>,
)
    requires
        call_ensures(PanicInfoOwned::<A>::from, (&report,), copied),
        call_ensures(PanicInfoOwned::<A>::from_payload, (payload,), forwarded),
    ensures
        copied.payload is None,
        report.message is Some ==> copied.msg@ == report.message->0@,
        report.message is None ==> copied.msg@.len() == 0,
        report.location is Some ==> {
            &&& copied.file@ == report.location->0.file@
            &&& copied.line == report.location->0.line
            &&& copied.column == report.location->0.column
        },
        report.location is None ==> {
            &&& copied.file@.len() == 0
            &&& copied.line == 0
            &&& copied.column == 0
        },
        forwarded.payload == Some(payload),
        forwarded.msg@.len() == 0,
        forwarded.file@.len() == 0,
        forwarded.line == 0,
        forwarded.column == 0,
        forall|blank: PanicInfoOwned<A>| #[trigger]
            call_ensures(<PanicInfoOwned<A> as Default>::default, (), blank) ==> {
                &&& blank.payload is None
                &&& blank.msg@.len() == 0
                &&& blank.file@.len() == 0
                &&& blank.line == 0
                &&& blank.column == 0
            },
{
}

/// An aligned option gives back what it was made of.
pub proof fn law_aligned_option(opt: Option<u8>, aligned: OptionU8, back: Option<u8>)
    requires
        call_ensures(OptionU8::from, (opt,), aligned),
        call_ensures(OptionU8::into, (aligned,), back),
    ensures
        back == opt,
{
}

/// The words of the errors.
pub proof fn law_error_texts()
    ensures
        ALREADY_EXITED@
            == "BUG: task was already exited! (did not overwrite its existing exit value)"@,
        current::NO_CURRENT_TASK@ == "couldn't get current task"@,
        lifecycle::NO_PARENT_TASK@
            == "Task::new(): `parent_task` wasn't provided, and couldn't get current task"@,
        lifecycle::NO_KERNEL_STACK@ == "couldn't allocate kernel stack!"@,
        lifecycle::JOIN_WITHOUT_CURRENT_TASK@ == "join(): failed to check what current task is"@,
        lifecycle::JOIN_OF_CURRENT_TASK@
            == "BUG: cannot call join() on yourself (the current task)."@,
        lifecycle::JOIN_WITHOUT_INTERRUPTS@
            == "BUG: cannot call join() with interrupts disabled; it will cause deadlock."@,
        lifecycle::KILLED_WITHOUT_CURRENT_TASK@
            == "mark_as_exited(): failed to check the current task"@,
        lifecycle::KILLED_OTHER_TASK@
            == "`mark_as_exited()` can only be invoked on the current task, not on another task."@,
        bootstrap::NO_INITIAL_NAMESPACE@
            == "The initial kernel CrateNamespace must be initialized before the tasking subsystem."@,
        bootstrap::NOT_THE_CURRENT_TASK@
            == "BUG: bootstrap_task(): failed to properly set the new bootstrapped task as the current task"@,
        bootstrap::CURRENT_TASK_NOT_SET@
            == "BUG: bootstrap_task(): failed to set bootstrapped task as current task"@,
        bootstrap::ID_ALREADY_LISTED@
            == "BUG: bootstrap_task(): TASKLIST already contained a task with the new bootstrap_task's ID"@,
{
}

} // verus!
