//! The data all processors share.
use vstd::prelude::*;

use crate::hook::npt::{hook_addresses_ok, DuplicateNptHook};
use crate::hook::Hook;
use crate::svm::msr_bitmap::{
    lemma_msr_bits, lemma_set_bit, read_bit_index, seq_bit, set_bit_spec, MsrBitmap, IA32_EFER,
    SVM_MSR_TSC, SVM_MSR_VM_HSAVE_PA,
};
use crate::svm::nested_page_table::TableAddresses;

verus! {

pub struct SharedData {
    pub msr_bitmap: MsrBitmap,
    pub hooked_npt: DuplicateNptHook,
}

/// The bits of the MSR permission map the hypervisor sets: reads of and
/// writes to EFER, reads of the time-stamp counter and of the host save
/// area address.
pub open spec fn intercepted_bit(i: int) -> bool {
    i == read_bit_index(IA32_EFER) || i == read_bit_index(IA32_EFER) + 1 || i == read_bit_index(
        SVM_MSR_TSC,
    ) || i == read_bit_index(SVM_MSR_VM_HSAVE_PA)
}

impl SharedData {
    /// Builds the MSR permission map, which intercepts reads of and writes
    /// to EFER and reads of the time-stamp counter and of the host save area
    /// address, and the hooked nested page tables.
    pub fn new(hooks: Vec<Hook>, rwx_addresses: TableAddresses, rw_addresses: TableAddresses) -> (r: Self)
        requires
            rwx_addresses.wf(),
            rw_addresses.wf(),
            forall|i: int| 0 <= i < hooks@.len() ==> hook_addresses_ok(#[trigger] hooks@[i]),
        ensures
            r.msr_bitmap.wf(),
            forall|i: int| 0 <= i < 0x10000 ==> #[trigger] r.msr_bitmap.bit(i) == intercepted_bit(i),
            r.hooked_npt.wf(),
            r.hooked_npt.hooks@ == hooks@,
            r.hooked_npt.rwx_npt.has_addresses(&rwx_addresses),
            r.hooked_npt.rw_npt.has_addresses(&rw_addresses),
            r.hooked_npt.rwx_pml4@ == rwx_addresses.pml4_pa,
            r.hooked_npt.rw_pml4@ == rw_addresses.pml4_pa,
            r.hooked_npt.rwx_npt.view() == crate::hook::npt::permissions_applied(
                r.hooked_npt.rwx_npt.identity_base_view(),
                crate::hook::npt::rwx_pairs(hooks@),
                crate::svm::paging::AccessType::ReadWrite,
            ),
            r.hooked_npt.rw_npt.view() == crate::hook::npt::permissions_applied(
                r.hooked_npt.rw_npt.identity_base_view(),
                crate::hook::npt::rw_pairs(hooks@),
                crate::svm::paging::AccessType::ReadWriteExecute,
            ),
    {
        let mut bitmap = MsrBitmap::new();
        let ghost bm0 = bitmap;
        let ghost b0 = bitmap.bytes();
        bitmap.hook_msr(IA32_EFER);
        bitmap.hook_rdmsr(SVM_MSR_TSC);
        bitmap.hook_rdmsr(SVM_MSR_VM_HSAVE_PA);
        proof {
            lemma_msr_bits(IA32_EFER, SVM_MSR_TSC);
            lemma_msr_bits(SVM_MSR_TSC, SVM_MSR_VM_HSAVE_PA);
            lemma_msr_bits(SVM_MSR_VM_HSAVE_PA, IA32_EFER);
            let e = read_bit_index(IA32_EFER);
            let t = read_bit_index(SVM_MSR_TSC);
            let h = read_bit_index(SVM_MSR_VM_HSAVE_PA);
            let b1 = set_bit_spec(b0, e + 1);
            let b2 = set_bit_spec(b1, e);
            let b3 = set_bit_spec(b2, t);
            let b4 = set_bit_spec(b3, h);
            assert(bitmap.bytes() == b4);
            assert forall|i: int| 0 <= i < 0x10000 implies #[trigger] bitmap.bit(i) == intercepted_bit(i) by {
                lemma_set_bit(b0, e + 1, i);
                lemma_set_bit(b1, e, i);
                lemma_set_bit(b2, t, i);
                lemma_set_bit(b3, h, i);
                assert(!bm0.bit(i));
            }
        }
        let hooked_npt = DuplicateNptHook::new(hooks, rwx_addresses, rw_addresses);
        SharedData { msr_bitmap: bitmap, hooked_npt }
    }
}

} // verus!
