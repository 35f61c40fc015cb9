//! The run states of a task and the transitions between them.
use vstd::prelude::*;

verus! {

/// The set of possible run states that a task can be in.
#[derive(Copy, Clone, Debug, PartialEq, Eq, Structural)]
pub enum RunState {
    /// In the midst of being set up.
    Initing,
    /// Able to be scheduled in, but not necessarily running at the moment.
    Runnable,
    /// Blocked on something, like I/O or a wait event.
    Blocked,
    /// Exited, either by running to completion or by being killed; it can no longer be run.
    Exited,
    /// Exited, with its exit value already taken: the exit value can be taken only once.
    /// The task is now useless: it is not on the task list, and it can be released
    /// once nothing refers to it.
    Reaped,
}

impl RunState {
    /// The task has come to its end and will never run again.
    pub open spec fn is_over(self) -> bool {
        self == RunState::Exited || self == RunState::Reaped
    }

    /// The state that an attempt to block leaves behind.
    pub open spec fn after_block(self) -> RunState {
        if self == RunState::Runnable {
            RunState::Blocked
        } else {
            self
        }
    }

    /// The state that an attempt to unblock leaves behind.
    pub open spec fn after_unblock(self) -> RunState {
        if self == RunState::Blocked {
            RunState::Runnable
        } else {
            self
        }
    }

    /// What an attempt to block or to unblock reports: the state before it, as a success
    /// if the task was runnable or blocked.
    pub open spec fn wakeup_report(self) -> Result<RunState, RunState> {
        if self == RunState::Runnable || self == RunState::Blocked {
            Ok(self)
        } else {
            Err(self)
        }
    }

    /// The state that an attempt to end the set-up in the state `next` leaves behind.
    pub open spec fn after_init(self, next: RunState) -> RunState {
        if self == RunState::Initing {
            next
        } else {
            self
        }
    }

    /// What an attempt to end the set-up reports: the state before it, as a success
    /// if the task was being set up.
    pub open spec fn init_report(self) -> Result<RunState, RunState> {
        if self == RunState::Initing {
            Ok(self)
        } else {
            Err(self)
        }
    }

    /// The state that an attempt to exit leaves behind.
    pub open spec fn after_exit(self) -> RunState {
        if self.is_over() {
            self
        } else {
            RunState::Exited
        }
    }

    /// The state that an attempt to take the exit value leaves behind.
    pub open spec fn after_reap(self) -> RunState {
        if self == RunState::Exited {
            RunState::Reaped
        } else {
            self
        }
    }

    /// One of the operations on a task takes it from the state `self` to the state `next`.
    pub open spec fn steps_to(self, next: RunState) -> bool {
        ||| next == self.after_block()
        ||| next == self.after_unblock()
        ||| next == self.after_init(RunState::Blocked)
        ||| next == self.after_init(RunState::Runnable)
        ||| next == self.after_exit()
        ||| next == self.after_reap()
    }

    /// How far along its life a task is: being set up, alive, exited, reaped.
    pub open spec fn stage(self) -> int {
        match self {
            RunState::Initing => 0,
            RunState::Runnable => 1,
            RunState::Blocked => 1,
            RunState::Exited => 2,
            RunState::Reaped => 3,
        }
    }

    /// The name of the state.
    pub open spec fn text(self) -> Seq<char> {
        match self {
            RunState::Initing => "Initing"@,
            RunState::Runnable => "Runnable"@,
            RunState::Blocked => "Blocked"@,
            RunState::Exited => "Exited"@,
            RunState::Reaped => "Reaped"@,
        }
    }

    /// Returns the name of the state.
    pub fn name(&self) -> (name: &'static str)
        ensures
            name@ == self.text(),
    {
        match self {
            RunState::Initing => "Initing",
            RunState::Runnable => "Runnable",
            RunState::Blocked => "Blocked",
            RunState::Exited => "Exited",
            RunState::Reaped => "Reaped",
        }
    }
}

/// A path of operations that leads from one run state to another.
pub open spec fn is_run_state_path(path: Seq<RunState>) -> bool {
    forall|i: int| 0 <= i < path.len() - 1 ==> (#[trigger] path[i]).steps_to(path[i + 1])
}

/// A task never goes back to an earlier stage of its life, whatever operations are applied to it.
pub proof fn law_life_goes_forward(path: Seq<RunState>, i: int, j: int)
    requires
        is_run_state_path(path),
        0 <= i <= j < path.len(),
    ensures
        path[i].stage() <= path[j].stage(),
    decreases j - i,
{
    if i < j {
        assert(path[i].steps_to(path[i + 1]));
        law_life_goes_forward(path, i + 1, j);
    }
}

/// A task that has exited stays exited, whatever operations are applied to it afterwards.
pub proof fn law_exit_is_permanent(path: Seq<RunState>, i: int, j: int)
    requires
        is_run_state_path(path),
        0 <= i <= j < path.len(),
        path[i].is_over(),
    ensures
        path[j].is_over(),
{
    law_life_goes_forward(path, i, j);
}

/// A task that was reaped stays reaped.
pub proof fn law_reaping_is_permanent(path: Seq<RunState>, i: int, j: int)
    requires
        is_run_state_path(path),
        0 <= i <= j < path.len(),
        path[i] == RunState::Reaped,
    ensures
        path[j] == RunState::Reaped,
{
    law_life_goes_forward(path, i, j);
}

/// A task that has left its set-up never returns to it.
pub proof fn law_set_up_happens_once(path: Seq<RunState>, i: int, j: int)
    requires
        is_run_state_path(path),
        0 <= i <= j < path.len(),
        path[i] != RunState::Initing,
    ensures
        path[j] != RunState::Initing,
        path[j].init_report() is Err,
{
    law_life_goes_forward(path, i, j);
}

/// Blocking and then unblocking a task that can be blocked makes it runnable, and unblocking
/// and then blocking makes it blocked; both attempts succeed.
pub proof fn law_block_and_unblock_are_inverse(state: RunState)
    requires
        state.wakeup_report() is Ok,
    ensures
        state.after_block().wakeup_report() == Ok::<RunState, RunState>(RunState::Blocked),
        state.after_block().after_unblock() == RunState::Runnable,
        state.after_unblock().wakeup_report() == Ok::<RunState, RunState>(RunState::Runnable),
        state.after_unblock().after_block() == RunState::Blocked,
{
}

/// Blocking twice leaves the same state as blocking once, and so does unblocking.
pub proof fn law_block_and_unblock_are_idempotent(state: RunState)
    ensures
        state.after_block().after_block() == state.after_block(),
        state.after_unblock().after_unblock() == state.after_unblock(),
{
}

/// An attempt that reports a failure leaves the state as it was.
pub proof fn law_failure_changes_nothing(state: RunState, next: RunState)
    ensures
        state.wakeup_report() is Err ==> state.after_block() == state,
        state.wakeup_report() is Err ==> state.after_unblock() == state,
        state.init_report() is Err ==> state.after_init(next) == state,
{
}

} // verus!
