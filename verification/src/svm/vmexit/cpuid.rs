//! The CPUID handler.
use vstd::prelude::*;

use crate::svm::data::guest::GuestRegisters;
use crate::svm::data::processor::ProcessorData;
use crate::svm::vmexit::ExitType;

verus! {

/// The CPUID leaf the guest asks for to leave the hypervisor.
pub const CPUID_DEVIRTUALIZE: u64 = 0x41414141;
pub const CPUID_PROCESSOR_AND_PROCESSOR_FEATURE_IDENTIFIERS: u64 = 0x00000001;
/// Reserved for a hypervisor to indicate guest status.
pub const CPUID_FN0000_0001_ECX_HYPERVISOR_PRESENT: u32 = 0x8000_0000;
pub const CPUID_HV_VENDOR_AND_MAX_FUNCTIONS: u64 = 0x40000000;
pub const CPUID_HV_INTERFACE: u64 = 0x40000001;
pub const CPUID_HV_MAX: u32 = 0x40000001;
/// "Hv#0" read as a little-endian number: not the Microsoft hypervisor
/// interface.
pub const CPUID_HV_INTERFACE_SIGNATURE: u32 = 0x4876_2330;

/// The four registers CPUID returns.
#[derive(Debug, Clone, Copy, PartialEq, Eq, Structural)]
pub struct CpuIdResult {
    pub eax: u32,
    pub ebx: u32,
    pub ecx: u32,
    pub edx: u32,
}

/// That the CPUID instruction, executed for `leaf` and `subleaf`, answered
/// `r`. It is a relation, not a function: the same leaf may be answered
/// differently on another processor or at another time.
pub uninterp spec fn cpuid_outcome(leaf: u32, subleaf: u32, r: CpuIdResult) -> bool;

/// Calls `x86::cpuid::native_cpuid::cpuid_count`, which executes the CPUID
/// instruction for the leaf and subleaf. The contract says only that the
/// answer is one CPUID gave for this leaf and subleaf; what the answer is
/// depends on the processor and on the hypervisor below, and is not stated.
#[verifier::external_body]
pub(crate) fn native_cpuid(leaf: u32, subleaf: u32) -> (r: CpuIdResult)
    ensures
        cpuid_outcome(leaf, subleaf, r),
{
    let r = x86::cpuid::native_cpuid::cpuid_count(leaf, subleaf);
    CpuIdResult { eax: r.eax, ebx: r.ebx, ecx: r.ecx, edx: r.edx }
}

/// What the guest sees of a CPUID leaf: leaf 1 with the hypervisor present
/// bit set, the hypervisor vendor leaf with the maximum hypervisor leaf and
/// 0x42 as vendor, the hypervisor interface leaf with "Hv#0", and every
/// other leaf as the processor answers it.
pub open spec fn cpuid_answer(leaf: u64, c: CpuIdResult) -> CpuIdResult {
    if leaf == CPUID_PROCESSOR_AND_PROCESSOR_FEATURE_IDENTIFIERS {
        CpuIdResult { ecx: c.ecx | CPUID_FN0000_0001_ECX_HYPERVISOR_PRESENT, ..c }
    } else if leaf == CPUID_HV_VENDOR_AND_MAX_FUNCTIONS {
        CpuIdResult { eax: CPUID_HV_MAX, ebx: 0x42, ecx: 0x42, edx: 0x42 }
    } else if leaf == CPUID_HV_INTERFACE {
        CpuIdResult { eax: CPUID_HV_INTERFACE_SIGNATURE, ebx: 0, ecx: 0, edx: 0 }
    } else {
        c
    }
}

/// The registers with the answer in RAX, RBX, RCX and RDX.
pub open spec fn with_answer(regs: GuestRegisters, c: CpuIdResult) -> GuestRegisters {
    GuestRegisters {
        rax: c.eax as u64,
        rbx: c.ebx as u64,
        rcx: c.ecx as u64,
        rdx: c.edx as u64,
        ..regs
    }
}

/// Handles a CPUID exit for which the processor answered `cpuid`: the
/// devirtualize leaf leaves the hypervisor with the registers untouched,
/// every other leaf gets its answer and the instruction is skipped.
pub fn handle_cpuid_result(guest_regs: &mut GuestRegisters, cpuid: CpuIdResult) -> (r: ExitType)
    ensures
        old(guest_regs).rax == CPUID_DEVIRTUALIZE ==> r == ExitType::ExitHypervisor && *final(guest_regs) == *old(guest_regs),
        old(guest_regs).rax != CPUID_DEVIRTUALIZE ==> r == ExitType::IncrementRIP && *final(guest_regs) == with_answer(*old(guest_regs), cpuid_answer(old(guest_regs).rax, cpuid)),
{
    let leaf = guest_regs.rax;
    let mut cpuid = cpuid;
    if leaf == CPUID_PROCESSOR_AND_PROCESSOR_FEATURE_IDENTIFIERS {
        cpuid.ecx = cpuid.ecx | CPUID_FN0000_0001_ECX_HYPERVISOR_PRESENT;
    } else if leaf == CPUID_HV_VENDOR_AND_MAX_FUNCTIONS {
        cpuid.eax = CPUID_HV_MAX;
        cpuid.ebx = 0x42;
        cpuid.ecx = 0x42;
        cpuid.edx = 0x42;
    } else if leaf == CPUID_HV_INTERFACE {
        cpuid.eax = CPUID_HV_INTERFACE_SIGNATURE;
        cpuid.ebx = 0;
        cpuid.ecx = 0;
        cpuid.edx = 0;
    } else if leaf == CPUID_DEVIRTUALIZE {
        return ExitType::ExitHypervisor;
    }
    guest_regs.rax = cpuid.eax as u64;
    guest_regs.rbx = cpuid.ebx as u64;
    guest_regs.rcx = cpuid.ecx as u64;
    guest_regs.rdx = cpuid.edx as u64;
    ExitType::IncrementRIP
}

/// What `handle_cpuid` does: the relation between the states before and after
/// the call and its result.
pub open spec fn cpuid_post(old_data: ProcessorData, old_regs: GuestRegisters, new_data: ProcessorData, new_regs: GuestRegisters, r: ExitType) -> bool {
    &&& new_data == old_data
    &&& old_regs.rax == CPUID_DEVIRTUALIZE ==> r == ExitType::ExitHypervisor && new_regs == old_regs
    &&& old_regs.rax != CPUID_DEVIRTUALIZE ==> r == ExitType::IncrementRIP && exists|c: CpuIdResult|
        #[trigger] cpuid_outcome(old_regs.rax as u32, old_regs.rcx as u32, c) && new_regs
            == with_answer(old_regs, cpuid_answer(old_regs.rax, c))
}

/// Handles a CPUID exit: executes CPUID for the leaf in RAX and the subleaf
/// in RCX (their low 32 bits) and answers as `handle_cpuid_result` does
/// for whatever the processor returned.
pub fn handle_cpuid(_data: &mut ProcessorData, guest_regs: &mut GuestRegisters) -> (r: ExitType)
    ensures
        cpuid_post(*old(_data), *old(guest_regs), *final(_data), *final(guest_regs), r),

{
    let cpuid = native_cpuid(guest_regs.rax as u32, guest_regs.rcx as u32);
    handle_cpuid_result(guest_regs, cpuid)
}

} // verus!
