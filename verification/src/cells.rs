//! The lock-free cells that hold the parts of a task which are read most often.
//!
//! A task owns its cells, and no shared reference to one leaves the task. Whoever writes to
//! a cell has exclusive access to the task, so between two operations on a cell of a task
//! no other thread writes to it.
use crate::run_state::RunState;
use crossbeam_utils::atomic::AtomicCell;
use vstd::prelude::*;

verus! {

/// An `Option<u8>` with an alignment of two bytes, which the empty array forces.
///
/// With it the value has the size and the alignment of a 16-bit integer, so that an atomic cell
/// of it uses native atomic instructions.
#[derive(Copy, Clone)]
pub struct OptionU8 {
    value: Option<u8>,
    #[allow(dead_code)]
    alignment: [u16; 0],
}

impl View for OptionU8 {
    type V = Option<u8>;

    closed spec fn view(&self) -> Option<u8> {
        self.value
    }
}

impl OptionU8 {
    /// Aligns an `Option<u8>`.
    pub fn from(opt: Option<u8>) -> (aligned: Self)
        ensures
            aligned@ == opt,
    {
        OptionU8 { value: opt, alignment: [] }
    }

    /// Returns the `Option<u8>`.
    pub fn into(self) -> (opt: Option<u8>)
        ensures
            opt == self@,
    {
        self.value
    }
}

/// `crossbeam_utils::atomic::AtomicCell`: a memory location that can be shared among threads.
#[verifier::external_type_specification]
#[verifier::external_body]
#[verifier::reject_recursive_types(T)]
pub struct ExAtomicCell<T>(AtomicCell<T>);

/// The run state that a cell holds.
pub uninterp spec fn runstate_in(cell: AtomicCell<RunState>) -> RunState;

/// The optional number that a cell holds.
pub uninterp spec fn option_in(cell: AtomicCell<OptionU8>) -> OptionU8;

/// `AtomicCell::new` for a run state: the cell holds the value that it was created with.
#[verifier::external_body]
pub(crate) fn new_runstate(state: RunState) -> (cell: AtomicCell<RunState>)
    ensures
        runstate_in(cell) == state,
{
    AtomicCell::new(state)
}

/// `AtomicCell::load` for a run state: it returns the value that the cell holds.
#[verifier::external_body]
pub(crate) fn load_runstate(cell: &AtomicCell<RunState>) -> (state: RunState)
    ensures
        state == runstate_in(*cell),
{
    cell.load()
}

/// `AtomicCell::store` for a run state: the cell holds the new value afterwards.
#[verifier::external_body]
pub(crate) fn store_runstate(cell: &mut AtomicCell<RunState>, state: RunState)
    ensures
        runstate_in(*final(cell)) == state,
{
    cell.store(state)
}

/// `AtomicCell::compare_exchange` for a run state: if the cell holds `current`, then `new` is
/// stored and the result is a success; otherwise the cell stays as it is and the result is a
/// failure. Either result carries the value that the cell held before.
#[verifier::external_body]
pub(crate) fn compare_exchange_runstate(
    cell: &mut AtomicCell<RunState>,
    current: RunState,
    new: RunState,
) -> (result: Result<RunState, RunState>)
    ensures
        result is Ok <==> runstate_in(*old(cell)) == current,
        result matches Ok(state) ==> state == runstate_in(*old(cell)),
        result matches Err(state) ==> state == runstate_in(*old(cell)),
        runstate_in(*final(cell)) == (if runstate_in(*old(cell)) == current {
            new
        } else {
            runstate_in(*old(cell))
        }),
{
    cell.compare_exchange(current, new)
}

/// `AtomicCell::new` for an optional number: the cell holds the value that it was created with.
#[verifier::external_body]
pub(crate) fn new_option(opt: OptionU8) -> (cell: AtomicCell<OptionU8>)
    ensures
        option_in(cell) == opt,
{
    AtomicCell::new(opt)
}

/// `AtomicCell::load` for an optional number: it returns the value that the cell holds.
#[verifier::external_body]
pub(crate) fn load_option(cell: &AtomicCell<OptionU8>) -> (opt: OptionU8)
    ensures
        opt == option_in(*cell),
{
    cell.load()
}

/// `AtomicCell::store` for an optional number: the cell holds the new value afterwards.
#[verifier::external_body]
pub(crate) fn store_option(cell: &mut AtomicCell<OptionU8>, opt: OptionU8)
    ensures
        option_in(*final(cell)) == opt,
{
    cell.store(opt)
}

} // verus!
