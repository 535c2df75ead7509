//! The data of a single virtual processor.
use vstd::prelude::*;

use crate::nt::structs::{Context, KTRAP_FRAME};
use crate::svm::vmcb::control_area::{INTERCEPT_CPUID, INTERCEPT_MSR_PROT, MISC2_INTERCEPT_VMRUN};
use crate::svm::vmcb::save_area::{HostState, SaveArea};
use crate::svm::vmcb::Vmcb;

verus! {

pub const KERNEL_STACK_SIZE: usize = 0x6000;

/// The top of the host stack: the trap frame, the physical addresses of the
/// two VMCBs, the addresses of this processor's data and of the shared
/// data, and a marker the #VMEXIT handler checks.
pub struct HostStackLayout {
    pub trap_frame: KTRAP_FRAME,
    /// HostRsp
    pub guest_vmcb_pa: u64,
    pub host_vmcb_pa: u64,
    pub self_data: u64,
    pub shared_data: u64,
    /// To keep HostRsp 16 bytes aligned
    pub padding_1: u64,
    pub reserved_1: u64,
}

/// The data for a single **virtual** processor.
pub struct ProcessorData {
    pub host_stack_layout: HostStackLayout,
    pub guest_vmcb: Vmcb,
    pub host_vmcb: Vmcb,
}

/// Where the structures of a processor are: the physical addresses of its
/// guest VMCB, host VMCB and of the MSR permission map, and the virtual
/// addresses of its own data and of the shared data.
pub struct VirtualizationAddresses {
    pub guest_vmcb_pa: u64,
    pub host_vmcb_pa: u64,
    pub msr_pm_pa: u64,
    pub self_data: u64,
    pub shared_data: u64,
}

impl ProcessorData {
    /// Zero-filled processor data.
    pub fn new() -> (r: Self)
        ensures
            r.guest_vmcb.control_area.is_zeroed(),
            r.guest_vmcb.save_area.is_zeroed(),
            r.host_vmcb.control_area.is_zeroed(),
            r.host_vmcb.save_area.is_zeroed(),
            r.host_stack_layout.reserved_1 == 0,
    {
        ProcessorData {
            host_stack_layout: HostStackLayout {
                trap_frame: KTRAP_FRAME::zeroed(),
                guest_vmcb_pa: 0,
                host_vmcb_pa: 0,
                self_data: 0,
                shared_data: 0,
                padding_1: 0,
                reserved_1: 0,
            },
            guest_vmcb: Vmcb::zeroed(),
            host_vmcb: Vmcb::zeroed(),
        }
    }

    /// Configures the guest VMCB and the host stack for virtualization:
    /// CPUID, VMRUN and the MSRs of the permission map are intercepted, the
    /// guest gets ASID 1, the nested page table root `ncr3` and the state
    /// captured in `context` and `host`, and the host stack the addresses
    /// the #VMEXIT handler needs.
    pub fn prepare_for_virtualization(
        &mut self,
        addresses: &VirtualizationAddresses,
        ncr3: u64,
        context: &Context,
        host: &HostState,
    )
        ensures
            ({
                let o = *old(self);
                let f = *final(self);
                &&& f.guest_vmcb.control_area == (crate::svm::vmcb::control_area::ControlArea {
                    intercept_misc1: o.guest_vmcb.control_area.intercept_misc1 | INTERCEPT_CPUID
                        | INTERCEPT_MSR_PROT,
                    intercept_misc2: o.guest_vmcb.control_area.intercept_misc2 | MISC2_INTERCEPT_VMRUN,
                    msrpm_base_pa: addresses.msr_pm_pa,
                    guest_asid: 1,
                    ncr3: ncr3,
                    ..o.guest_vmcb.control_area
                })
                &&& f.guest_vmcb.save_area == SaveArea::built(o.guest_vmcb.save_area, context, host)
                &&& f.host_vmcb == o.host_vmcb
                &&& f.host_stack_layout == (HostStackLayout {
                    reserved_1: 0xffff_ffff_ffff_ffffu64,
                    shared_data: addresses.shared_data,
                    self_data: addresses.self_data,
                    host_vmcb_pa: addresses.host_vmcb_pa,
                    guest_vmcb_pa: addresses.guest_vmcb_pa,
                    ..o.host_stack_layout
                })
            }),
    {
        self.guest_vmcb.control_area.intercept_misc1 = self.guest_vmcb.control_area.intercept_misc1
            | INTERCEPT_CPUID;
        self.guest_vmcb.control_area.intercept_misc2 = self.guest_vmcb.control_area.intercept_misc2
            | MISC2_INTERCEPT_VMRUN;
        self.guest_vmcb.control_area.intercept_misc1 = self.guest_vmcb.control_area.intercept_misc1
            | INTERCEPT_MSR_PROT;
        self.guest_vmcb.control_area.msrpm_base_pa = addresses.msr_pm_pa;
        self.guest_vmcb.control_area.guest_asid = 1;
        self.guest_vmcb.control_area.ncr3 = ncr3;
        self.guest_vmcb.save_area.build(context, host);
        self.host_stack_layout.reserved_1 = 0xffff_ffff_ffff_ffff;
        self.host_stack_layout.shared_data = addresses.shared_data;
        self.host_stack_layout.self_data = addresses.self_data;
        self.host_stack_layout.host_vmcb_pa = addresses.host_vmcb_pa;
        self.host_stack_layout.guest_vmcb_pa = addresses.guest_vmcb_pa;
    }
}

} // verus!
