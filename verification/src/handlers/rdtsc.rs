//! The RDTSC handler that passes the time-stamp counter through.
use vstd::prelude::*;

use crate::svm::data::guest::GuestRegisters;
use crate::svm::data::processor::ProcessorData;
use crate::svm::vmexit::ExitType;

verus! {

/// How many times slower the counter the guest reads through the MSR runs.
pub const RDTSC_MODIFIER: u64 = 100;

/// The registers after RDTSC returned `value`: its low half in RAX and its
/// high half in RDX, each zero-extended.
pub open spec fn split_counter(regs: GuestRegisters, value: u64) -> GuestRegisters {
    GuestRegisters { rax: value % 0x1_0000_0000, rdx: value / 0x1_0000_0000, ..regs }
}

/// Handles an RDTSC exit for the time-stamp counter value `tsc`: the guest
/// gets the counter as it is, split into EDX:EAX, and the instruction is
/// skipped.
pub fn handle_rdtsc(_vcpu: &mut ProcessorData, regs: &mut GuestRegisters, tsc: u64) -> (r: ExitType)
    ensures
        r == ExitType::IncrementRIP,
        *final(_vcpu) == *old(_vcpu),
        *final(regs) == split_counter(*old(regs), tsc),
{
    regs.rax = (tsc as u32) as u64;
    regs.rdx = tsc >> 32;
    assert((tsc as u32) as u64 == tsc % 0x1_0000_0000 && tsc >> 32u64 == tsc / 0x1_0000_0000)
        by (bit_vector);
    ExitType::IncrementRIP
}

/// The guest gets the whole counter back from EDX:EAX: the high half times
/// 2^32 plus the low half is the value, and each half fits in 32 bits.
pub proof fn lemma_split_counter_round_trip(regs: GuestRegisters, value: u64)
    ensures
        split_counter(regs, value).rdx * 0x1_0000_0000 + split_counter(regs, value).rax == value,
        split_counter(regs, value).rax < 0x1_0000_0000,
        split_counter(regs, value).rdx < 0x1_0000_0000,
{
}

} // verus!
