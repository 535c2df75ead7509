//! The RDTSC handler.
use vstd::prelude::*;

use crate::svm::data::guest::GuestRegisters;
use crate::svm::data::processor::ProcessorData;
use crate::svm::vmexit::ExitType;

verus! {

/// What `handle_rdtsc` does: the relation between the states before and after
/// the call and its result.
pub open spec fn rdtsc_post(old_data: ProcessorData, old_regs: GuestRegisters, new_data: ProcessorData, new_regs: GuestRegisters, tsc: u64, r: ExitType) -> bool {
    &&& r == ExitType::IncrementRIP
    &&& new_data == old_data
    &&& new_regs == (GuestRegisters { rax: tsc / 100, rdx: (tsc / 100) >> 32u64, ..old_regs })
}

/// Handles an RDTSC exit for the time-stamp counter value `tsc`: the guest
/// gets a counter that runs a hundred times slower, the whole quotient in
/// RAX and its high half in RDX.
pub fn handle_rdtsc(_data: &mut ProcessorData, regs: &mut GuestRegisters, tsc: u64) -> (r: ExitType)
    ensures
        rdtsc_post(*old(_data), *old(regs), *final(_data), *final(regs), tsc, r),

{
    let rdtsc = (tsc / 100) as i64;
    assert(rdtsc >= 0);
    assert(rdtsc >= 0 ==> rdtsc & -1i64 == rdtsc && (rdtsc >> 32i64) & -1i64 == rdtsc >> 32i64 && (
    rdtsc >> 32i64) as u64 == (rdtsc as u64) >> 32u64) by (bit_vector);
    regs.rax = (rdtsc & -1) as u64;
    regs.rdx = ((rdtsc >> 32) & -1) as u64;
    ExitType::IncrementRIP
}

} // verus!
