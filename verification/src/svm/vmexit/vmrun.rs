//! The VMRUN handler.
use vstd::prelude::*;

use crate::svm::data::guest::GuestRegisters;
use crate::svm::data::processor::ProcessorData;
use crate::svm::events::EventInjection;
use crate::svm::vmcb::control_area::ControlArea;
use crate::svm::vmcb::Vmcb;
use crate::svm::vmexit::ExitType;

verus! {

/// What `handle_vmrun` does: the relation between the states before and after
/// the call and its result.
pub open spec fn vmrun_post(old_data: ProcessorData, old_regs: GuestRegisters, new_data: ProcessorData, new_regs: GuestRegisters, r: ExitType) -> bool {
    &&& r == ExitType::DoNothing
    &&& new_regs == old_regs
    &&& new_data == (ProcessorData {
                guest_vmcb: Vmcb {
                    control_area: ControlArea { event_inj: 0x8000_0b0d, ..old_data.guest_vmcb.control_area },
                    ..old_data.guest_vmcb
                },
                ..old_data
    })
}

/// Handles a VMRUN exit: the guest gets a #GP.
pub fn handle_vmrun(data: &mut ProcessorData, _regs: &mut GuestRegisters) -> (r: ExitType)
    ensures
        vmrun_post(*old(data), *old(_regs), *final(data), *final(_regs), r),

{
    EventInjection::gp().inject(data);
    ExitType::DoNothing
}

} // verus!
