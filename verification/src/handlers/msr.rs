//! MSR read handlers: the host save area address and a slowed down
//! time-stamp counter.
use vstd::prelude::*;

use crate::handlers::rdtsc::{split_counter, RDTSC_MODIFIER};
use crate::svm::data::guest::GuestRegisters;
use crate::svm::data::processor::ProcessorData;
use crate::svm::vmexit::ExitType;

verus! {

/// Handles a read of the host save area address: the guest reads 0, as if
/// no hypervisor had set it, and the instruction is skipped.
pub fn handle_hsave(_vcpu: &mut ProcessorData, regs: &mut GuestRegisters) -> (r: ExitType)
    ensures
        r == ExitType::IncrementRIP,
        *final(_vcpu) == *old(_vcpu),
        *final(regs) == (GuestRegisters { rax: 0, rdx: 0, ..*old(regs) }),
{
    regs.rax = 0;
    regs.rdx = 0;
    ExitType::IncrementRIP
}

/// Handles a read of the time-stamp counter MSR whose value is `tsc`: the
/// guest reads the counter divided by `RDTSC_MODIFIER`, split into
/// EDX:EAX, and the instruction is skipped.
pub fn handle_rdtsc(_vcpu: &mut ProcessorData, regs: &mut GuestRegisters, tsc: u64) -> (r: ExitType)
    ensures
        r == ExitType::IncrementRIP,
        *final(_vcpu) == *old(_vcpu),
        *final(regs) == split_counter(*old(regs), tsc / RDTSC_MODIFIER),
{
    let rdtsc = tsc / RDTSC_MODIFIER;
    regs.rax = (rdtsc as u32) as u64;
    regs.rdx = rdtsc >> 32;
    assert((rdtsc as u32) as u64 == rdtsc % 0x1_0000_0000 && rdtsc >> 32u64 == rdtsc
        / 0x1_0000_0000) by (bit_vector);
    ExitType::IncrementRIP
}

} // verus!
