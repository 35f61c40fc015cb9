//! How a task comes to its end.
use crate::panic_info::PanicInfoOwned;
use crate::text::{append_decimal, append_hexadecimal, decimal, hexadecimal};
use vstd::prelude::*;

verus! {

/// The possible reasons that a task was killed prematurely.
#[derive(Debug)]
pub enum KillReason<A> {
    /// The user or another task requested that the task be killed.
    /// For example, the user pressed `Ctrl + C` on the shell window that started it.
    Requested,
    /// A language-level panic occurred while running the task.
    Panic(PanicInfoOwned<A>),
    /// A problem below the level of the language, such as a page fault or some other machine
    /// exception. The number of the exception is enclosed, e.g. 14 (0xE) for a page fault.
    Exception(u8),
}

/// The ways that a task can exit, with the value or the reason that goes with each.
#[derive(Debug)]
pub enum ExitValue<A> {
    /// The task ran to completion and returned the enclosed value.
    Completed(A),
    /// The task did *not* run to completion, and was killed for the enclosed reason.
    Killed(KillReason<A>),
}

impl<A> KillReason<A> {
    /// The text that tells a person why the task was killed.
    pub open spec fn text(self) -> Seq<char> {
        match self {
            KillReason::Requested => "Requested"@,
            KillReason::Panic(info) => "Panicked at "@ + info.text(),
            KillReason::Exception(num) => "Exception "@ + "0x"@ + hexadecimal(
                num as nat,
            ) + "("@ + decimal(num as nat) + ")"@,
        }
    }

    /// Returns the text that tells a person why the task was killed.
    pub fn to_string(&self) -> (out: String)
        ensures
            out@ == self.text(),
    {
        let mut out = String::new();
        match self {
            KillReason::Requested => {
                out.append("Requested");
            },
            KillReason::Panic(info) => {
                out.append("Panicked at ");
                let text = info.to_string();
                out.append(text.as_str());
            },
            KillReason::Exception(num) => {
                out.append("Exception ");
                out.append("0x");
                append_hexadecimal(&mut out, *num);
                out.append("(");
                append_decimal(&mut out, *num as u64);
                out.append(")");
            },
        }
        proof {
            assert(out@ =~= self.text());
        }
        out
    }
}

} // verus!
