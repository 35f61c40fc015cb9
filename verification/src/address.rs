//! Virtual addresses of the x86_64 architecture.
use vstd::prelude::*;

verus! {

/// The bits from 48 upwards of an address are either all zero or all copies of bit 47.
pub open spec fn has_virtual_form(addr: u64) -> bool {
    let upper = addr / 0x8000_0000_0000;
    upper == 0 || upper == 1 || upper == 0x1_ffff
}

/// The address with the bits from 48 upwards set to copies of bit 47,
/// where bit 47 is set and those bits are zero; any other address as it is.
pub open spec fn sign_extended(addr: u64) -> u64 {
    if addr / 0x8000_0000_0000 == 1 {
        (addr + 0xffff_0000_0000_0000) as u64
    } else {
        addr
    }
}

/// `x86_64::VirtAddr::new`: it makes a canonical address by sign extension of bit 47.
/// It panics where the bits from 48 upwards are neither all zero nor copies of bit 47,
/// which the precondition leaves out.
#[verifier::external_body]
pub(crate) fn virtual_address(addr: u64) -> (canonical: u64)
    requires
        has_virtual_form(addr),
    ensures
        canonical == sign_extended(addr),
{
    x86_64::VirtAddr::new(addr).as_u64()
}

} // verus!
