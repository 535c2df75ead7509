//! The #BP and nested page fault handlers that switch between the hooked
//! and the original pages.
use vstd::prelude::*;

use crate::hook::npt::DuplicateNptHook;
use crate::hook::{at_address, first_match, on_page, Hook, HookType};
use crate::nt::addresses::PhysicalAddress;
use crate::svm::data::guest::GuestRegisters;
use crate::svm::data::processor::ProcessorData;
use crate::svm::events::EventInjection;
use crate::svm::nested_page_table::{
    covered, lemma_access_entry, pd_slot, permission_changed_view, pt_key, pt_value, resolve_view,
    NptView,
};
use crate::svm::paging::pml4_index_spec;
use crate::svm::paging::{
    entry_address_ok, entry_fetch_disabled, entry_large, AccessType, ADDRESS_MASK,
};
use crate::svm::vmcb::control_area::{ControlArea, NPT_EXIT_PRESENT, TLB_CONTROL_FLUSH_GUEST_TLB, VMCB_CLEAN_NP};
use crate::svm::vmcb::save_area::SaveArea;
use crate::svm::vmcb::Vmcb;
use crate::svm::vmexit::msr::with_gp;
use crate::svm::vmexit::ExitType;

verus! {

/// The handler a breakpoint at `rip` goes to: that of the first hook of
/// `rip` when it hooks a function, else none.
pub open spec fn bp_handler(hooks: Seq<Hook>, rip: u64) -> Option<u64> {
    if exists|i: int| first_match(hooks, at_address(rip), i) {
        let i = choose|i: int| first_match(hooks, at_address(rip), i);
        match hooks[i].hook_type {
            HookType::Function { inline_hook } => Some(inline_hook.handler_spec()),
            HookType::Page => None,
        }
    } else {
        None
    }
}

/// The first match of a search is the only one.
pub proof fn lemma_first_match_unique(hooks: Seq<Hook>, p: spec_fn(Hook) -> bool, i: int, j: int)
    requires
        first_match(hooks, p, i),
        first_match(hooks, p, j),
    ensures
        i == j,
{
}

/// What `handle_break_point_exception` does: the relation between the states before and after
/// the call and its result.
pub open spec fn bp_post(hooked_npt: &DuplicateNptHook, old_data: ProcessorData, old_regs: GuestRegisters, new_data: ProcessorData, new_regs: GuestRegisters, r: ExitType) -> bool {
    &&& new_regs == old_regs
    &&& match bp_handler(hooked_npt.hooks@, old_data.guest_vmcb.save_area.rip) {
                Some(handler) => r == ExitType::DoNothing && new_data == (ProcessorData {
                    guest_vmcb: Vmcb {
                        save_area: SaveArea { rip: handler, ..old_data.guest_vmcb.save_area },
                        ..old_data.guest_vmcb
                    },
                    ..old_data
                }),
                None => r == ExitType::IncrementRIP && new_data == (ProcessorData {
                    guest_vmcb: Vmcb {
                        control_area: ControlArea { event_inj: 0x8000_0303, ..old_data.guest_vmcb.control_area },
                        ..old_data.guest_vmcb
                    },
                    ..old_data
                })
    }
}

/// Handles a breakpoint exit: when the guest's RIP is the address of a
/// hooked function, the guest continues in the hook's handler; otherwise
/// the guest gets the #BP and the instruction is skipped.
pub fn handle_break_point_exception(
    data: &mut ProcessorData,
    _regs: &mut GuestRegisters,
    hooked_npt: &DuplicateNptHook,
) -> (r: ExitType)
    ensures
        bp_post(hooked_npt, *old(data), *old(_regs), *final(data), *final(_regs), r),

{
    let rip = data.guest_vmcb.save_area.rip;
    let hook = hooked_npt.find_hook_by_address(rip);
    proof {
        if let Some(h) = hook {
            let i = choose|i: int| first_match(hooked_npt.hooks@, at_address(rip), i) && *h == hooked_npt.hooks@[i];
            let k = choose|k: int| first_match(hooked_npt.hooks@, at_address(rip), k);
            lemma_first_match_unique(hooked_npt.hooks@, at_address(rip), i, k);
        }
    }
    if let Some(hook) = hook {
        if let HookType::Function { inline_hook } = &hook.hook_type {
            data.guest_vmcb.save_area.rip = inline_hook.handler_address();
            return ExitType::DoNothing;
        }
    }
    EventInjection::bp().inject(data);
    ExitType::IncrementRIP
}

/// The page whose copy a nested page fault at `faulting_pa` switches to:
/// the copied page of the first hook of the faulting page, if any.
pub open spec fn npf_hook_page(hooks: Seq<Hook>, faulting_pa: u64) -> Option<u64> {
    if exists|i: int| first_match(hooks, on_page(faulting_pa), i) {
        let i = choose|i: int| first_match(hooks, on_page(faulting_pa), i);
        Some(hooks[i].page_pa@)
    } else {
        None
    }
}

/// When `handle_nested_page_fault` can handle an exit: the tables are
/// well formed, a page that is not present is below 2^52, and the page to
/// switch to is a valid entry address whose page-table entry exists.
pub open spec fn npf_pre(hooked: DuplicateNptHook, data: ProcessorData) -> bool {
    &&& hooked.rwx_npt.wf()
    &&& hooked.rw_npt.wf()
    &&& ({
            let faulting_pa = data.guest_vmcb.control_area.exit_info2;
            let present = data.guest_vmcb.control_area.exit_info1 & NPT_EXIT_PRESENT != 0;
            if !present {
                faulting_pa < 0x10_0000_0000_0000
            } else {
                match npf_hook_page(hooked.hooks@, faulting_pa) {
                    Some(page_pa) => entry_address_ok(page_pa) && covered(
                        hooked.rw_npt.view(),
                        faulting_pa,
                    ),
                    None => entry_address_ok(faulting_pa) && covered(
                        hooked.rwx_npt.view(),
                        faulting_pa,
                    ),
                }
            }
        })
}

/// What `handle_nested_page_fault` does: the relation between the states before and after
/// the call and its result.
pub open spec fn npf_post(old_hooked: DuplicateNptHook, old_data: ProcessorData, old_regs: GuestRegisters, new_hooked: DuplicateNptHook, new_data: ProcessorData, new_regs: GuestRegisters, r: ExitType) -> bool {
    &&& r == ExitType::DoNothing
    &&& new_regs == old_regs
    &&& new_hooked.hooks@ == old_hooked.hooks@
    &&& new_hooked.rwx_pml4 == old_hooked.rwx_pml4
    &&& new_hooked.rw_pml4 == old_hooked.rw_pml4
    &&& new_hooked.rwx_npt.wf()
    &&& new_hooked.rw_npt.wf()
    &&& new_hooked.rwx_npt.same_layout(&old_hooked.rwx_npt)
    &&& new_hooked.rw_npt.same_layout(&old_hooked.rw_npt)
    &&& ({
                let faulting_pa = old_data.guest_vmcb.control_area.exit_info2;
                let present = old_data.guest_vmcb.control_area.exit_info1 & NPT_EXIT_PRESENT != 0;
                let page = faulting_pa & !0xfffu64;
                let rwx = old_hooked.rwx_npt.view();
                let rw = old_hooked.rw_npt.view();
                let ca = old_data.guest_vmcb.control_area;
                let switched = |ncr3: u64|
                    (ProcessorData {
                        guest_vmcb: Vmcb {
                            control_area: ControlArea {
                                ncr3: ncr3,
                                tlb_control: ca.tlb_control | TLB_CONTROL_FLUSH_GUEST_TLB,
                                vmcb_clean: ca.vmcb_clean & !VMCB_CLEAN_NP,
                                ..ca
                            },
                            ..old_data.guest_vmcb
                        },
                        ..old_data
                    });
                if !present {
                    &&& new_data == old_data
                    &&& new_hooked.rw_npt.view() == old_hooked.rw_npt.mapped_4kb(rw, page, page)
                    &&& new_hooked.rwx_npt.view() == old_hooked.rwx_npt.mapped_4kb(rwx, page, page)
                } else {
                    match npf_hook_page(old_hooked.hooks@, faulting_pa) {
                        Some(page_pa) => {
                            &&& new_hooked.rw_npt.view() == crate::svm::nested_page_table::permission_changed_view(
                                rw,
                                faulting_pa,
                                page_pa,
                                AccessType::ReadWriteExecute,
                            )
                            &&& new_hooked.rwx_npt.view() == rwx
                            &&& new_data == switched(old_hooked.rw_pml4@)
                        },
                        None => {
                            &&& new_hooked.rwx_npt.view() == crate::svm::nested_page_table::permission_changed_view(
                                rwx,
                                faulting_pa,
                                faulting_pa,
                                AccessType::ReadWriteExecute,
                            )
                            &&& new_hooked.rw_npt.view() == rw
                            &&& new_data == switched(old_hooked.rwx_pml4@)
                        },
                    }
                }
    })
}

/// Handles a nested page fault for the guest physical address in
/// EXITINFO2.
///
/// - A page that is not present is mapped to itself in both tables:
///   read/write in the one without execute rights, read/write/execute in
///   the other.
/// - A page with a hook is mapped to the hook's copy with execute rights in
///   `rw_npt`, and the guest switches to `rw_npt`.
/// - Any other page is given execute rights in `rwx_npt`, and the guest
///   switches to `rwx_npt`.
///
/// After a switch the guest's TLB is flushed and the nested paging state
/// is marked as changed. The guest resumes at the same instruction.
pub fn handle_nested_page_fault(
    data: &mut ProcessorData,
    _regs: &mut GuestRegisters,
    hooked_npt: &mut DuplicateNptHook,
) -> (r: ExitType)
    requires
        npf_pre(*old(hooked_npt), *old(data)),
    ensures
        npf_post(*old(hooked_npt), *old(data), *old(_regs), *final(hooked_npt), *final(data), *final(_regs), r),

{
    let faulting_pa = data.guest_vmcb.control_area.exit_info2;
    let exit_info = data.guest_vmcb.control_area.exit_info1;
    if exit_info & NPT_EXIT_PRESENT == 0 {
        let faulting_pa = PhysicalAddress::from_pa(faulting_pa).align_down_to_base_page().as_u64();
        proof {
            crate::hook::npt::lemma_page_address_ok(old(data).guest_vmcb.control_area.exit_info2);
        }
        hooked_npt.rw_npt.map_4kb(faulting_pa, faulting_pa, AccessType::ReadWrite);
        hooked_npt.rwx_npt.map_4kb(faulting_pa, faulting_pa, AccessType::ReadWriteExecute);
        return ExitType::DoNothing;
    }
    let hook_pa = match hooked_npt.find_hook(faulting_pa) {
        Some(hook) => Some(hook.page_pa.as_u64()),
        None => None,
    };
    proof {
        let hooks = hooked_npt.hooks@;
        if let Some(p) = hook_pa {
            let i = choose|i: int| first_match(hooks, on_page(faulting_pa), i) && p == hooks[i].page_pa@;
            let k = choose|k: int| first_match(hooks, on_page(faulting_pa), k);
            lemma_first_match_unique(hooks, on_page(faulting_pa), i, k);
        }
    }
    if let Some(hook_pa) = hook_pa {
        hooked_npt.rw_npt.change_page_permission(faulting_pa, hook_pa, AccessType::ReadWriteExecute);
        data.guest_vmcb.control_area.ncr3 = hooked_npt.rw_pml4.as_u64();
    } else {
        hooked_npt.rwx_npt.change_page_permission(faulting_pa, faulting_pa, AccessType::ReadWriteExecute);
        data.guest_vmcb.control_area.ncr3 = hooked_npt.rwx_pml4.as_u64();
    }
    data.guest_vmcb.control_area.tlb_control = data.guest_vmcb.control_area.tlb_control
        | TLB_CONTROL_FLUSH_GUEST_TLB;
    data.guest_vmcb.control_area.vmcb_clean = data.guest_vmcb.control_area.vmcb_clean & !VMCB_CLEAN_NP;
    ExitType::DoNothing
}

/// Whether `handle_nested_page_fault` can handle the exit in `data` with
/// the well-formed tables of `hooked`.
pub fn nested_page_fault_ready(hooked: &DuplicateNptHook, data: &ProcessorData) -> (r: bool)
    requires
        hooked.rwx_npt.wf(),
        hooked.rw_npt.wf(),
    ensures
        r == npf_pre(*hooked, *data),
{
    let faulting_pa = data.guest_vmcb.control_area.exit_info2;
    if data.guest_vmcb.control_area.exit_info1 & NPT_EXIT_PRESENT == 0 {
        return faulting_pa < 0x10_0000_0000_0000;
    }
    let hook = hooked.find_hook(faulting_pa);
    proof {
        let hooks = hooked.hooks@;
        if let Some(h) = hook {
            let i = choose|i: int| first_match(hooks, on_page(faulting_pa), i) && *h == hooks[i];
            let k = choose|k: int| first_match(hooks, on_page(faulting_pa), k);
            lemma_first_match_unique(hooks, on_page(faulting_pa), i, k);
        }
    }
    match hook {
        Some(hook) => {
            let page_pa = hook.page_pa.as_u64();
            page_pa & ADDRESS_MASK == page_pa && hooked.rw_npt.is_covered(faulting_pa)
        },
        None => faulting_pa & ADDRESS_MASK == faulting_pa && hooked.rwx_npt.is_covered(faulting_pa),
    }
}

/// Executing a hooked page runs the hook's copy. After a nested page fault
/// on a present page that a hook covers, the guest runs on the table
/// without execute rights on the hooked pages, in which the faulting
/// address now resolves into the hook's page at the same offset, with
/// instruction fetches allowed. After one on a present page that no hook
/// covers, the guest runs on the other table, in which the address resolves
/// to itself and may be executed. Both for a page that the table in
/// question mapped with a 4 KiB entry.
pub proof fn lemma_nested_page_fault_runs_copy(
    old_hooked: DuplicateNptHook,
    old_data: ProcessorData,
    old_regs: GuestRegisters,
    new_hooked: DuplicateNptHook,
    new_data: ProcessorData,
    new_regs: GuestRegisters,
    r: ExitType,
)
    requires
        npf_pre(old_hooked, old_data),
        npf_post(old_hooked, old_data, old_regs, new_hooked, new_data, new_regs, r),
        old_data.guest_vmcb.control_area.exit_info1 & NPT_EXIT_PRESENT != 0,
    ensures
        ({
            let fpa = old_data.guest_vmcb.control_area.exit_info2;
            let ncr3 = new_data.guest_vmcb.control_area.ncr3;
            let rw = old_hooked.rw_npt.view();
            let rwx = old_hooked.rwx_npt.view();
            match npf_hook_page(old_hooked.hooks@, fpa) {
                Some(page_pa) => !entry_large(rw.pd[pd_slot(fpa)]) && resolve_view(rw, fpa) is Some
                    ==> {
                    &&& ncr3 == old_hooked.rw_pml4@
                    &&& resolve_view(new_hooked.rw_npt.view(), fpa) == Some(page_pa | (fpa & 0xfffu64))
                    &&& !entry_fetch_disabled(pt_value(new_hooked.rw_npt.view().pt, pt_key(fpa)))
                },
                None => !entry_large(rwx.pd[pd_slot(fpa)]) && resolve_view(rwx, fpa) is Some ==> {
                    &&& ncr3 == old_hooked.rwx_pml4@
                    &&& resolve_view(new_hooked.rwx_npt.view(), fpa) == Some(fpa)
                    &&& !entry_fetch_disabled(pt_value(new_hooked.rwx_npt.view().pt, pt_key(fpa)))
                },
            }
        }),
{
    let fpa = old_data.guest_vmcb.control_area.exit_info2;
    let rw = old_hooked.rw_npt.view();
    let rwx = old_hooked.rwx_npt.view();
    let key = pt_key(fpa);
    match npf_hook_page(old_hooked.hooks@, fpa) {
        Some(page_pa) => {
            lemma_access_entry(page_pa, pt_value(rw.pt, key), AccessType::ReadWriteExecute);
        },
        None => {
            lemma_access_entry(fpa, pt_value(rwx.pt, key), AccessType::ReadWriteExecute);
            assert(fpa & ADDRESS_MASK == fpa ==> fpa | (fpa & 0xfffu64) == fpa) by (bit_vector);
        },
    }
}

/// A nested page fault on a page that is not present maps it in both
/// tables: in each table where neither a 2 MiB page nor a page-table entry
/// covered the faulting address, it now resolves to itself (same page,
/// same offset), and every address that resolved before still resolves
/// the same way. The guest resumes at the same instruction.
pub proof fn lemma_nested_page_fault_maps_missing_page(
    old_hooked: DuplicateNptHook,
    old_data: ProcessorData,
    old_regs: GuestRegisters,
    new_hooked: DuplicateNptHook,
    new_data: ProcessorData,
    new_regs: GuestRegisters,
    r: ExitType,
)
    requires
        npf_pre(old_hooked, old_data),
        npf_post(old_hooked, old_data, old_regs, new_hooked, new_data, new_regs, r),
        old_data.guest_vmcb.control_area.exit_info1 & NPT_EXIT_PRESENT == 0,
        old_hooked.rw_npt.links_ok(old_hooked.rw_npt.view()),
        old_hooked.rwx_npt.links_ok(old_hooked.rwx_npt.view()),
    ensures
        r == ExitType::DoNothing,
        new_data == old_data,
        ({
            let fpa = old_data.guest_vmcb.control_area.exit_info2;
            let rw = old_hooked.rw_npt.view();
            let rwx = old_hooked.rwx_npt.view();
            &&& !covered(rw, fpa) ==> resolve_view(new_hooked.rw_npt.view(), fpa) == Some(fpa)
            &&& !covered(rwx, fpa) ==> resolve_view(new_hooked.rwx_npt.view(), fpa) == Some(fpa)
            &&& forall|g: u64| #[trigger] resolve_view(rw, g) is Some ==> resolve_view(
                new_hooked.rw_npt.view(),
                g,
            ) == resolve_view(rw, g)
            &&& forall|g: u64| #[trigger] resolve_view(rwx, g) is Some ==> resolve_view(
                new_hooked.rwx_npt.view(),
                g,
            ) == resolve_view(rwx, g)
        }),
{
    let fpa = old_data.guest_vmcb.control_area.exit_info2;
    let page = fpa & !0xfffu64;
    crate::hook::npt::lemma_page_address_ok(fpa);
    old_hooked.rw_npt.lemma_wf_view();
    old_hooked.rwx_npt.lemma_wf_view();
    assert({
        &&& (page >> 39u64) & 0x1ffu64 == (fpa >> 39u64) & 0x1ffu64
        &&& (page >> 30u64) & 0x1ffu64 == (fpa >> 30u64) & 0x1ffu64
        &&& (page >> 21u64) & 0x1ffu64 == (fpa >> 21u64) & 0x1ffu64
        &&& (page >> 12u64) & 0x1ffu64 == (fpa >> 12u64) & 0x1ffu64
        &&& page | (fpa & 0xfffu64) == fpa
    }) by (bit_vector)
        requires
            page == fpa & !0xfffu64,
    ;
    assert(pt_key(page) == pt_key(fpa));
    assert(pml4_index_spec(page) == pml4_index_spec(fpa));
    old_hooked.rw_npt.lemma_map_4kb_resolution(old_hooked.rw_npt.view(), page, page);
    old_hooked.rwx_npt.lemma_map_4kb_resolution(old_hooked.rwx_npt.view(), page, page);
}

} // verus!
