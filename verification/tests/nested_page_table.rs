use amd_hypervisor::svm::nested_page_table::{NestedPageTable, TableAddresses};
use amd_hypervisor::hook::npt::DuplicateNptHook;
use amd_hypervisor::hook::{Hook, HookType};
use amd_hypervisor::nt::addresses::PhysicalAddress;
use amd_hypervisor::nt::physmem_descriptor::PhysicalMemoryDescriptor;
use amd_hypervisor::svm::data::guest::GuestRegisters;
use amd_hypervisor::svm::data::processor::ProcessorData;
use amd_hypervisor::svm::vmexit::page_fault::{handle_nested_page_fault, nested_page_fault_ready};
use amd_hypervisor::svm::vmexit::ExitType;
use amd_hypervisor::svm::paging::AccessType;

fn addresses() -> TableAddresses {
    TableAddresses {
        pml4_pa: 0x1000,
        pdpt_pa: 0x2000,
        pd_pas: (0..512u64).map(|i| 0x10_0000 + i * 0x1000).collect(),
        pt_pas: (0..262144u64).map(|i| 0x1000_0000 + i * 0x1000).collect(),
    }
}

#[test]
fn new_table_is_empty() {
    let npt = NestedPageTable::new(addresses());
    assert!(npt.pml4.iter().all(|e| *e == 0));
    assert!(npt.pdp_entries.iter().all(|e| *e == 0));
    assert!(npt.pd_entries.iter().all(|e| *e == 0));
    assert!(npt.pt_entries.is_empty());
    assert_eq!(npt.pml4_pa, 0x1000);
}

#[test]
fn map_4kb_links_every_level() {
    let mut npt = NestedPageTable::new(addresses());
    // Guest page 0x4020_3000: PDPT index 1, PD index 1, PT index 3.
    npt.map_4kb(0x4020_3000, 0x7777_7000, AccessType::ReadWriteExecute);
    assert_eq!(npt.pml4[0], 0x2000 | 0x7);
    assert_eq!(npt.pdp_entries[1], 0x10_1000 | 0x7);
    let k = 512 + 1;
    assert_eq!(npt.pd_entries[k], (0x1000_0000 + (k as u64) * 0x1000) | 0x7);
    let entry = npt.pt_entries[&((k as u64) * 512 + 3)];
    assert_eq!(entry & 0x000f_ffff_ffff_f000, 0x7777_7000);
    assert_eq!(entry & 1, 1);
    // A present page stays as it is.
    npt.map_4kb(0x4020_3000, 0x8888_8000, AccessType::ReadWriteExecute);
    assert_eq!(npt.pt_entries[&((k as u64) * 512 + 3)], entry);
}

#[test]
fn map_2mb_sets_a_large_page() {
    let mut npt = NestedPageTable::new(addresses());
    npt.map_2mb(0x60_0000, 0x60_0000, AccessType::ReadWriteExecute);
    assert_eq!(npt.pd_entries[3], 0x60_0000 | 0x87);
    assert!(npt.pt_entries.is_empty());
}

#[test]
fn split_then_join_restores_the_large_page() {
    let mut npt = NestedPageTable::new(addresses());
    npt.map_2mb(0x20_0000, 0x20_0000, AccessType::ReadWriteExecute);
    let (pml4, pdpt, pd) = (npt.pml4.clone(), npt.pdp_entries.clone(), npt.pd_entries.clone());
    assert_eq!(npt.split_2mb_to_4kb(0x20_0000), Some(()));
    assert_eq!(npt.pd_entries[1] & 0x80, 0);
    assert_eq!(npt.pd_entries[1] & 1, 1);
    for i in 0..512u64 {
        let e = npt.pt_entries[&(512 + i)];
        assert_eq!(e & 0x000f_ffff_ffff_f000, 0x20_0000 + i * 0x1000);
        assert_eq!(e & 1, 1);
    }
    assert_eq!(npt.join_4kb_to_2mb(0x20_0000), Some(()));
    assert_eq!(npt.pd_entries[1], 0x20_0000 | 0x87);
    assert_eq!(npt.pml4, pml4);
    assert_eq!(npt.pdp_entries, pdpt);
    assert_eq!(npt.pd_entries, pd);
    assert!(npt.is_covered(0x20_0000) && npt.is_covered(0x3f_f000));
}

#[test]
fn change_page_permission_redirects_one_page() {
    let mut npt = NestedPageTable::new(addresses());
    npt.map_4kb(0x5000, 0x5000, AccessType::ReadWriteExecute);
    npt.change_page_permission(0x5000, 0x9000, AccessType::ReadWrite);
    let e = npt.pt_entries[&5];
    assert_eq!(e & 0x000f_ffff_ffff_f000, 0x9000);
    assert_eq!(e >> 63, 1);
    npt.change_page_permission(0x5000, 0x5000, AccessType::ReadWriteExecute);
    let e = npt.pt_entries[&5];
    assert_eq!(e & 0x000f_ffff_ffff_f000, 0x5000);
    assert_eq!(e >> 63, 0);
}

#[test]
fn coverage_of_pages() {
    let mut npt = NestedPageTable::new(addresses());
    assert!(!npt.is_covered(0x5000));
    npt.map_4kb(0x5000, 0x5000, AccessType::ReadWriteExecute);
    assert!(npt.is_covered(0x5123));
    assert!(!npt.is_covered(0x6000));
    npt.map_2mb(0x40_0000, 0x40_0000, AccessType::ReadWriteExecute);
    assert!(npt.is_covered(0x5f_f000));
}

#[test]
fn identity_2mb_maps_each_block_to_itself() {
    let npt = NestedPageTable::identity_2mb(addresses());
    assert_eq!(npt.pml4[0], 0x2000 | 0x7);
    assert_eq!(npt.pml4[1], 0);
    assert_eq!(npt.pdp_entries[511], (0x10_0000 + 511 * 0x1000) | 0x7);
    for k in [0usize, 1, 511, 512, 262143] {
        assert_eq!(npt.pd_entries[k], (k as u64 * 0x20_0000) | 0x87);
    }
    assert!(npt.is_covered(0x7f_ffff_f123));
}

#[test]
fn single_page_permission_keeps_the_upper_levels_executable() {
    let mut npt = NestedPageTable::new(addresses());
    npt.map_4kb(0x5000, 0x5000, AccessType::ReadWriteExecute);
    npt.map_4kb(0x6000, 0x6000, AccessType::ReadWriteExecute);
    let desc = PhysicalMemoryDescriptor::new(&vec![(0x1000, 0x10_0000), (0, 0)]);
    // The page is not executable, the pages beside it are.
    npt.change_permission_single_page(0x5000, AccessType::ReadWrite, &desc);
    assert_eq!(npt.pdp_entries[0] >> 63, 0);
    assert_eq!(npt.pd_entries[0] >> 63, 0);
    assert_eq!(npt.pt_entries[&5] >> 63, 1);
    assert_eq!(npt.pt_entries[&6] >> 63, 0);
    assert_eq!(npt.pt_entries[&5] & 0x000f_ffff_ffff_f000, 0x5000);
    assert_eq!(npt.pdp_entries[0] & 0x000f_ffff_ffff_f000, 0x10_0000);
    // The page is executable, the pages beside it are not.
    npt.change_permission_single_page(0x5000, AccessType::ReadWriteExecute, &desc);
    assert_eq!(npt.pdp_entries[0] >> 63, 0);
    assert_eq!(npt.pd_entries[0] >> 63, 0);
    assert_eq!(npt.pt_entries[&5] >> 63, 0);
    assert_eq!(npt.pt_entries[&6] >> 63, 1);
    assert_eq!(npt.pdp_entries[1] >> 63, 1);
}

fn other_addresses() -> TableAddresses {
    TableAddresses {
        pml4_pa: 0x3000,
        pdpt_pa: 0x4000,
        pd_pas: (0..512u64).map(|i| 0x20_0000 + i * 0x1000).collect(),
        pt_pas: (0..262144u64).map(|i| 0x2000_0000 + i * 0x1000).collect(),
    }
}

fn no_regs() -> GuestRegisters {
    GuestRegisters {
        r15: 0, r14: 0, r13: 0, r12: 0, r11: 0, r10: 0, r9: 0, r8: 0,
        rdi: 0, rsi: 0, rbp: 0, rsp: 0, rbx: 0, rdx: 0, rcx: 0, rax: 0,
    }
}

#[test]
fn executing_a_hooked_page_runs_its_copy() {
    let hook = Hook {
        original_va: 0xffff_f800_0000_5000,
        original_pa: PhysicalAddress::from_pa(0x5000),
        hook_va: 0xffff_f800_0009_0000,
        hook_pa: PhysicalAddress::from_pa(0x9_0000),
        page: vec![0xcc; 16],
        page_va: 0xffff_f800_0009_0000,
        page_pa: PhysicalAddress::from_pa(0x9_0000),
        hook_type: HookType::Page,
    };
    let mut rwx_npt = NestedPageTable::new(addresses());
    rwx_npt.map_4kb(0x5000, 0x5000, AccessType::ReadWrite);
    rwx_npt.map_4kb(0x6000, 0x6000, AccessType::ReadWrite);
    let mut rw_npt = NestedPageTable::new(other_addresses());
    rw_npt.map_4kb(0x5000, 0x5000, AccessType::ReadWrite);
    let mut hooked = DuplicateNptHook {
        rwx_npt,
        rwx_pml4: PhysicalAddress::from_pa(0x1000),
        rw_npt,
        rw_pml4: PhysicalAddress::from_pa(0x3000),
        hooks: vec![hook],
    };

    // The guest executes the hooked page: it now runs the copy.
    let mut data = ProcessorData::new();
    data.guest_vmcb.control_area.exit_info1 = 1;
    data.guest_vmcb.control_area.exit_info2 = 0x5123;
    assert!(nested_page_fault_ready(&hooked, &data));
    let mut regs = no_regs();
    let exit = handle_nested_page_fault(&mut data, &mut regs, &mut hooked);
    assert_eq!(exit, ExitType::DoNothing);
    assert_eq!(data.guest_vmcb.control_area.ncr3, 0x3000);
    let e = hooked.rw_npt.pt_entries[&5];
    assert_eq!(e & 0x000f_ffff_ffff_f000, 0x9_0000);
    assert_eq!(e >> 63, 0);

    // The guest executes another page: it runs on the other table, where
    // that page maps to itself and may be executed.
    data.guest_vmcb.control_area.exit_info2 = 0x6000;
    assert!(nested_page_fault_ready(&hooked, &data));
    handle_nested_page_fault(&mut data, &mut regs, &mut hooked);
    assert_eq!(data.guest_vmcb.control_area.ncr3, 0x1000);
    let e = hooked.rwx_npt.pt_entries[&6];
    assert_eq!(e & 0x000f_ffff_ffff_f000, 0x6000);
    assert_eq!(e >> 63, 0);
}
