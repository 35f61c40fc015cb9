//! What tasks and references to them give to a hasher.
use std::hash::{Hash, Hasher};
use vstd::prelude::*;

verus! {

/// `Hash::hash` of `usize`. Nothing is claimed of what it does to the hasher.
pub assume_specification<H: Hasher>[ <usize as Hash>::hash ](value: &usize, state: &mut H);

/// Gives a number to a hasher. What the hasher does with it is up to the hasher.
pub fn hash_usize<H: Hasher>(value: &usize, state: &mut H) {
    value.hash(state);
}

/// Calls `f` for a number and a hasher, once.
pub(crate) fn hash_by<H: Hasher, F: FnOnce(&usize, &mut H)>(f: F, value: &usize, state: &mut H)
    requires
        forall|s: &mut H| *s == *old(state) ==> call_requires(f, (value, s)),
    ensures
        exists|s: &mut H| #[trigger]
            call_ensures(f, (value, s), ()) && *s == *old(state) && *final(s) == *final(state),
{
    f(value, state)
}

} // verus!
