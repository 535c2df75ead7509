//! The handlers of the #VMEXITs the hypervisor intercepts.
use vstd::prelude::*;

pub mod cpuid;
pub mod msr;
pub mod page_fault;
pub mod rdtsc;
pub mod vmrun;

use crate::hook::npt::DuplicateNptHook;
use crate::svm::data::guest::GuestRegisters;
use crate::svm::data::processor::{HostStackLayout, ProcessorData};
use crate::svm::vmcb::control_area::{
    VMEXIT_CPUID, VMEXIT_EXCEPTION_BP, VMEXIT_MSR, VMEXIT_NPF, VMEXIT_RDTSC, VMEXIT_VMRUN,
};
use crate::svm::vmcb::save_area::SaveArea;
use crate::svm::vmcb::Vmcb;
use crate::nt::structs::KTRAP_FRAME;
use cpuid::{cpuid_post, handle_cpuid};
use msr::{handle_msr, msr_post, msr_pre, MsrAccess};
use page_fault::{bp_post, handle_break_point_exception, handle_nested_page_fault, npf_post, npf_pre};
use rdtsc::{handle_rdtsc, rdtsc_post};
use vmrun::{handle_vmrun, vmrun_post};

verus! {

/// What happens after a #VMEXIT has been handled.
#[derive(Debug, Clone, Copy, PartialEq, Eq, Structural)]
pub enum ExitType {
    /// Leave the hypervisor and continue the guest natively.
    ExitHypervisor,
    /// Skip the instruction that caused the #VMEXIT.
    IncrementRIP,
    /// Resume the guest at the same instruction.
    DoNothing,
}

/// The exits the hypervisor handles: CPUID, MSR, VMRUN, #BP, nested page
/// faults and RDTSC.
pub open spec fn handled_exit(code: u64) -> bool {
    code == VMEXIT_CPUID || code == VMEXIT_MSR || code == VMEXIT_VMRUN || code
        == VMEXIT_EXCEPTION_BP || code == VMEXIT_NPF || code == VMEXIT_RDTSC
}

/// Whether the hypervisor handles the exit code `code`.
pub fn is_handled_exit(code: u64) -> (r: bool)
    ensures
        r == handled_exit(code),
{
    code == VMEXIT_CPUID || code == VMEXIT_MSR || code == VMEXIT_VMRUN || code == VMEXIT_EXCEPTION_BP
        || code == VMEXIT_NPF || code == VMEXIT_RDTSC
}

/// The first part of #VMEXIT handling: the guest's RAX, which the processor
/// saved in the VMCB, is copied to the registers, and the trap frame gets
/// the guest's stack pointer and next instruction pointer.
pub fn begin_vmexit(data: &mut ProcessorData, guest_regs: &mut GuestRegisters)
    requires
        old(data).host_stack_layout.reserved_1 == 0xffff_ffff_ffff_ffffu64,
    ensures
        *final(guest_regs) == (GuestRegisters { rax: old(data).guest_vmcb.save_area.rax, ..*old(guest_regs) }),
        *final(data) == (ProcessorData {
            host_stack_layout: HostStackLayout {
                trap_frame: KTRAP_FRAME {
                    rsp: old(data).guest_vmcb.save_area.rsp,
                    rip: old(data).guest_vmcb.control_area.nrip,
                    ..old(data).host_stack_layout.trap_frame
                },
                ..old(data).host_stack_layout
            },
            ..*old(data)
        }),
{
    guest_regs.rax = data.guest_vmcb.save_area.rax;
    data.host_stack_layout.trap_frame.rsp = data.guest_vmcb.save_area.rsp;
    data.host_stack_layout.trap_frame.rip = data.guest_vmcb.control_area.nrip;
}

/// Runs the handler of the exit code; `tsc` is the time-stamp counter for
/// an RDTSC exit. An MSR access the handler asks for is returned to be
/// performed on the processor.
pub fn dispatch_vmexit(
    data: &mut ProcessorData,
    guest_regs: &mut GuestRegisters,
    hooked_npt: &mut DuplicateNptHook,
    tsc: u64,
) -> (r: (ExitType, MsrAccess))
    requires
        handled_exit(old(data).guest_vmcb.control_area.exit_code),
        old(data).guest_vmcb.control_area.exit_code == VMEXIT_MSR ==> msr_pre(*old(data), *old(guest_regs)),
        old(data).guest_vmcb.control_area.exit_code == VMEXIT_NPF ==> npf_pre(*old(hooked_npt), *old(data)),
    ensures
        ({
            let code = old(data).guest_vmcb.control_area.exit_code;
            let od = *old(data);
            let og = *old(guest_regs);
            let fd = *final(data);
            let fg = *final(guest_regs);
            &&& code != VMEXIT_MSR ==> r.1 == MsrAccess::Nothing
            &&& code != VMEXIT_NPF ==> *final(hooked_npt) == *old(hooked_npt)
            &&& code == VMEXIT_CPUID ==> cpuid_post(od, og, fd, fg, r.0)
            &&& code == VMEXIT_MSR ==> msr_post(od, og, fd, fg, r)
            &&& code == VMEXIT_VMRUN ==> vmrun_post(od, og, fd, fg, r.0)
            &&& code == VMEXIT_EXCEPTION_BP ==> bp_post(&*old(hooked_npt), od, og, fd, fg, r.0)
            &&& code == VMEXIT_NPF ==> npf_post(*old(hooked_npt), od, og, *final(hooked_npt), fd, fg, r.0)
            &&& code == VMEXIT_RDTSC ==> rdtsc_post(od, og, fd, fg, tsc, r.0)
        }),
{
    let code = data.guest_vmcb.control_area.exit_code;
    if code == VMEXIT_CPUID {
        (handle_cpuid(data, guest_regs), MsrAccess::Nothing)
    } else if code == VMEXIT_MSR {
        handle_msr(data, guest_regs)
    } else if code == VMEXIT_VMRUN {
        (handle_vmrun(data, guest_regs), MsrAccess::Nothing)
    } else if code == VMEXIT_EXCEPTION_BP {
        (handle_break_point_exception(data, guest_regs, hooked_npt), MsrAccess::Nothing)
    } else if code == VMEXIT_NPF {
        (handle_nested_page_fault(data, guest_regs, hooked_npt), MsrAccess::Nothing)
    } else {
        (handle_rdtsc(data, guest_regs, tsc), MsrAccess::Nothing)
    }
}

/// Sets up the registers for leaving the hypervisor: RAX and RDX hold the
/// low and high half of the address of the processor data, RBX the address
/// to return to and RCX the stack pointer to restore.
pub fn prepare_exit_hypervisor(data: &ProcessorData, guest_regs: &mut GuestRegisters, data_address: u64)
    ensures
        *final(guest_regs) == (GuestRegisters {
            rax: (data_address as u32) as u64,
            rdx: data_address >> 32u64,
            rbx: data.guest_vmcb.control_area.nrip,
            rcx: data.guest_vmcb.save_area.rsp,
            ..*old(guest_regs)
        }),
{
    guest_regs.rax = data_address as u32 as u64;
    guest_regs.rdx = data_address >> 32;
    guest_regs.rbx = data.guest_vmcb.control_area.nrip;
    guest_regs.rcx = data.guest_vmcb.save_area.rsp;
}

/// The last part of #VMEXIT handling. Leaving the hypervisor prepares the
/// registers for it; skipping the instruction copies RAX back to the VMCB
/// and moves RIP to the next instruction. Returns 1 when the hypervisor is
/// left, else 0.
pub fn finish_vmexit(
    data: &mut ProcessorData,
    guest_regs: &mut GuestRegisters,
    exit_type: ExitType,
    data_address: u64,
) -> (r: u8)
    ensures
        r == if exit_type == ExitType::ExitHypervisor {
            1u8
        } else {
            0u8
        },
        exit_type == ExitType::ExitHypervisor ==> *final(data) == *old(data) && *final(guest_regs) == (
        GuestRegisters {
            rax: (data_address as u32) as u64,
            rdx: data_address >> 32u64,
            rbx: old(data).guest_vmcb.control_area.nrip,
            rcx: old(data).guest_vmcb.save_area.rsp,
            ..*old(guest_regs)
        }),
        exit_type == ExitType::IncrementRIP ==> *final(guest_regs) == *old(guest_regs) && *final(data)
            == (ProcessorData {
            guest_vmcb: Vmcb {
                save_area: SaveArea {
                    rax: old(guest_regs).rax,
                    rip: old(data).guest_vmcb.control_area.nrip,
                    ..old(data).guest_vmcb.save_area
                },
                ..old(data).guest_vmcb
            },
            ..*old(data)
        }),
        exit_type == ExitType::DoNothing ==> *final(guest_regs) == *old(guest_regs) && *final(data)
            == *old(data),
{
    match exit_type {
        ExitType::ExitHypervisor => {
            prepare_exit_hypervisor(data, guest_regs, data_address);
            1
        },
        ExitType::IncrementRIP => {
            data.guest_vmcb.save_area.rax = guest_regs.rax;
            data.guest_vmcb.save_area.rip = data.guest_vmcb.control_area.nrip;
            0
        },
        ExitType::DoNothing => 0,
    }
}

} // verus!
