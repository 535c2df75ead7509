//! The breakpoint handler that sends a hooked function to its handler.
use vstd::prelude::*;

use crate::hook::npt::DuplicateNptHook;
use crate::svm::data::guest::GuestRegisters;
use crate::svm::data::processor::ProcessorData;
use crate::svm::vmexit::page_fault::{bp_post, handle_break_point_exception};
use crate::svm::vmexit::ExitType;

verus! {

/// Handles a #BP exit with the hooks of `hook_manager`: at the address of a
/// hooked function the guest continues in the hook's handler
/// (`DoNothing`, RIP already moved); anywhere else the guest gets the #BP
/// and the instruction is skipped.
pub fn handle_bp_exception(
    vcpu: &mut ProcessorData,
    regs: &mut GuestRegisters,
    hook_manager: &DuplicateNptHook,
) -> (r: ExitType)
    ensures
        bp_post(hook_manager, *old(vcpu), *old(regs), *final(vcpu), *final(regs), r),
{
    handle_break_point_exception(vcpu, regs, hook_manager)
}

} // verus!
