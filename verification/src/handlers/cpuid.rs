//! The handler of the processor feature CPUID leaf that tells the guest a
//! hypervisor is present.
use vstd::prelude::*;

use crate::svm::data::guest::GuestRegisters;
use crate::svm::data::processor::ProcessorData;
use crate::svm::vmexit::cpuid::{cpuid_outcome, native_cpuid, with_answer, CpuIdResult};
use crate::svm::vmexit::ExitType;

verus! {

/// The leaf of the processor feature identifiers.
pub const CPUID_FEATURES: u32 = 0x1;

/// The ECX bit reserved for a hypervisor to indicate guest status.
pub const CPUID_FN0000_0001_ECX_HYPERVISOR_PRESENT: u32 = 0x8000_0000;

/// The answer the guest gets: the processor's, with the hypervisor present
/// bit of ECX set.
pub open spec fn features_answer(c: CpuIdResult) -> CpuIdResult {
    CpuIdResult { ecx: c.ecx | CPUID_FN0000_0001_ECX_HYPERVISOR_PRESENT, ..c }
}

/// Answers the guest with what the processor returned, `cpuid`, with the
/// hypervisor present bit set, and skips the instruction.
pub fn handle_features_result(regs: &mut GuestRegisters, cpuid: CpuIdResult) -> (r: ExitType)
    ensures
        r == ExitType::IncrementRIP,
        *final(regs) == with_answer(*old(regs), features_answer(cpuid)),
{
    let mut cpuid = cpuid;
    cpuid.ecx = cpuid.ecx | CPUID_FN0000_0001_ECX_HYPERVISOR_PRESENT;
    regs.rax = cpuid.eax as u64;
    regs.rbx = cpuid.ebx as u64;
    regs.rcx = cpuid.ecx as u64;
    regs.rdx = cpuid.edx as u64;
    ExitType::IncrementRIP
}

/// Handles a CPUID exit for the feature leaf: executes CPUID for the leaf in
/// RAX and the subleaf in RCX (their low 32 bits) and answers as
/// `handle_features_result` does for whatever the processor returned.
pub fn handle_features(_vcpu: &mut ProcessorData, regs: &mut GuestRegisters) -> (r: ExitType)
    ensures
        r == ExitType::IncrementRIP,
        *final(_vcpu) == *old(_vcpu),
        exists|c: CpuIdResult|
            #[trigger] cpuid_outcome(old(regs).rax as u32, old(regs).rcx as u32, c) && *final(regs)
                == with_answer(*old(regs), features_answer(c)),
{
    let cpuid = native_cpuid(regs.rax as u32, regs.rcx as u32);
    handle_features_result(regs, cpuid)
}

} // verus!
