//! Nested page tables: the second level address resolution from guest
//! physical to host physical addresses.
use std::collections::HashMap;
use vstd::prelude::*;

use crate::nt::physmem_descriptor::PhysicalMemoryDescriptor;
use crate::svm::paging::{
    entry_address, entry_address_ok, entry_large, entry_present, is_page, is_present,
    pd_entry_new, pd_entry_spec, pd_index_of, pd_index_spec, pdpt_entry_new, pdpt_entry_spec,
    pdpt_index_of, pdpt_index_spec, pml4_entry_new, pml4_entry_spec, pml4_index_of,
    pml4_index_spec, pt_entry_new, pt_entry_spec, pt_index_of, pt_index_spec, AccessType,
    ADDRESS_MASK, LARGE_PAGE_FLAGS, PD_FLAGS_MASK, PDPT_FLAGS_MASK, PFN_MASK, PT_FLAGS_MASK,
    TABLE_FLAGS, access_flags, address, entry_fetch_disabled, is_instruction_fetching_disabled,
};

verus! {

broadcast use vstd::std_specs::hash::group_hash_axioms;

/// Number of entries in one table.
pub const ENTRIES: usize = 512;
/// Number of page directory entries: 512 page directories of 512 entries.
pub const PD_ENTRY_COUNT: usize = 262144;

/// The contents of a nested page table: the PML4, the page-directory-pointer
/// table, the 512 page directories one after another, and the page-table
/// entries keyed by `(pdpt index * 512 + pd index) * 512 + pt index`; an
/// entry that is not in the map is zero.
#[verifier::ext_equal]
pub ghost struct NptView {
    pub pml4: Seq<u64>,
    pub pdpt: Seq<u64>,
    pub pd: Seq<u64>,
    pub pt: Map<u64, u64>,
}

pub open spec fn pt_value(pt: Map<u64, u64>, key: u64) -> u64 {
    if pt.contains_key(key) {
        pt[key]
    } else {
        0
    }
}

/// Bits 21 to 51: the address part of an entry that maps a 2 MiB page.
pub const LARGE_PAGE_ADDRESS_MASK: u64 = 0x000f_ffff_ffe0_0000;

/// What the hardware makes of a guest physical address when it walks the
/// tables: `None` where an entry on the way is not present, else the host
/// physical address of the 2 MiB or 4 KiB page plus the offset into it.
pub open spec fn resolve_view(v: NptView, gpa: u64) -> Option<u64> {
    let l4 = pml4_index_spec(gpa) as int;
    let l3 = pdpt_index_spec(gpa) as int;
    let pde = v.pd[pd_slot(gpa)];
    let pte = pt_value(v.pt, pt_key(gpa));
    if !entry_present(v.pml4[l4]) || !entry_present(v.pdpt[l3]) || !entry_present(pde) {
        None
    } else if entry_large(pde) {
        Some((pde & LARGE_PAGE_ADDRESS_MASK) | (gpa & 0x1f_ffffu64))
    } else if !entry_present(pte) {
        None
    } else {
        Some(entry_address(pte) | (gpa & 0xfffu64))
    }
}

/// Index of the page-directory entry for an address in `pd`.
pub open spec fn pd_slot(addr: u64) -> int {
    pdpt_index_spec(addr) * 512 + pd_index_spec(addr)
}

/// Key of the page-table entry for an address in `pt`.
pub open spec fn pt_key(addr: u64) -> u64 {
    (pd_slot(addr) * 512 + pt_index_spec(addr)) as u64
}

/// The zero entry is not present.
proof fn lemma_zero_entry_absent()
    ensures
        !entry_present(0u64),
{
    assert(0u64 & 1u64 == 0) by (bit_vector);
}

/// The address bits of an entry never hold the present bit.
proof fn lemma_address_bits_absent(e: u64)
    ensures
        e & 1u64 != 0 ==> (e & 0x000f_ffff_ffff_f000u64) & 1u64 == 0,
{
    assert(e & 1u64 != 0 ==> (e & 0x000f_ffff_ffff_f000u64) & 1u64 == 0) by (bit_vector);
}

pub proof fn lemma_index_bounds(addr: u64)
    ensures
        pml4_index_spec(addr) < 512,
        pdpt_index_spec(addr) < 512,
        pd_index_spec(addr) < 512,
        pt_index_spec(addr) < 512,
        0 <= pd_slot(addr) < 262144,
        pt_key(addr) < 134217728,
{
    assert((addr >> 39u64) & 0x1ffu64 < 512 && (addr >> 30u64) & 0x1ffu64 < 512 && (addr >> 21u64)
        & 0x1ffu64 < 512 && (addr >> 12u64) & 0x1ffu64 < 512) by (bit_vector);
}

/// The physical addresses at which the tables of a nested page table live.
pub struct TableAddresses {
    pub pml4_pa: u64,
    pub pdpt_pa: u64,
    pub pd_pas: Vec<u64>,
    pub pt_pas: Vec<u64>,
}

impl TableAddresses {
    pub open spec fn wf(&self) -> bool {
        &&& self.pd_pas@.len() == 512
        &&& self.pt_pas@.len() == 262144
        &&& entry_address_ok(self.pml4_pa)
        &&& entry_address_ok(self.pdpt_pa)
        &&& forall|i: int| 0 <= i < 512 ==> entry_address_ok(#[trigger] self.pd_pas@[i])
        &&& forall|i: int| 0 <= i < 262144 ==> entry_address_ok(#[trigger] self.pt_pas@[i])
    }
}

/// An entry made from a valid address and the link flags is present, does
/// not map a large page, is executable and refers to that address, at every
/// level.
pub proof fn lemma_table_entries(pa: u64)
    requires
        entry_address_ok(pa),
    ensures
        entry_present(pml4_entry_spec(pa, TABLE_FLAGS)),
        entry_address(pml4_entry_spec(pa, TABLE_FLAGS)) == pa,
        entry_present(pdpt_entry_spec(pa, TABLE_FLAGS)),
        entry_address(pdpt_entry_spec(pa, TABLE_FLAGS)) == pa,
        entry_present(pd_entry_spec(pa, TABLE_FLAGS)),
        !entry_large(pd_entry_spec(pa, TABLE_FLAGS)),
        entry_address(pd_entry_spec(pa, TABLE_FLAGS)) == pa,
        entry_present(pt_entry_spec(pa, TABLE_FLAGS)),
        entry_address(pt_entry_spec(pa, TABLE_FLAGS)) == pa,
{
    assert(pa & 0x000f_ffff_ffff_f000u64 == pa ==> {
        &&& (pa | (7u64 & 0x8000_0000_0000_0e3fu64)) & 1u64 != 0
        &&& (pa | (7u64 & 0x8000_0000_0000_0e3fu64)) & 0x000f_ffff_ffff_f000u64 == pa
        &&& (pa | (7u64 & 0x8000_0000_0000_1fffu64)) & 1u64 != 0
        &&& (pa | (7u64 & 0x8000_0000_0000_1fffu64)) & 0x80u64 == 0
        &&& (pa | (7u64 & 0x8000_0000_0000_1fffu64)) & 0x000f_ffff_ffff_f000u64 == pa
        &&& (pa | (7u64 & 0x8000_0000_0000_0f7fu64)) & 1u64 != 0
        &&& (pa | (7u64 & 0x8000_0000_0000_0f7fu64)) & 0x000f_ffff_ffff_f000u64 == pa
    }) by (bit_vector);
}

/// An entry made from a valid address and the large page flags is present,
/// maps a large page and refers to that address.
pub proof fn lemma_large_entry(pa: u64)
    requires
        entry_address_ok(pa),
    ensures
        entry_present(pd_entry_spec(pa, LARGE_PAGE_FLAGS)),
        entry_large(pd_entry_spec(pa, LARGE_PAGE_FLAGS)),
        entry_address(pd_entry_spec(pa, LARGE_PAGE_FLAGS)) == pa,
        pd_entry_spec(pa, LARGE_PAGE_FLAGS) & LARGE_PAGE_ADDRESS_MASK == pa & LARGE_PAGE_ADDRESS_MASK,
{
    assert(pa & 0x000f_ffff_ffff_f000u64 == pa ==> {
        &&& (pa | (0x87u64 & 0x8000_0000_0000_1fffu64)) & 1u64 != 0
        &&& (pa | (0x87u64 & 0x8000_0000_0000_1fffu64)) & 0x80u64 != 0
        &&& (pa | (0x87u64 & 0x8000_0000_0000_1fffu64)) & 0x000f_ffff_ffff_f000u64 == pa
        &&& (pa | (0x87u64 & 0x8000_0000_0000_1fffu64)) & 0x000f_ffff_ffe0_0000u64 == pa
            & 0x000f_ffff_ffe0_0000u64
    }) by (bit_vector);
}

/// Indices of the `i`-th 2 MiB page.
pub proof fn lemma_large_page_indices(i: u64)
    requires
        i < 262144,
    ensures
        pml4_index_spec((i * 0x20_0000) as u64) == 0,
        pdpt_index_spec((i * 0x20_0000) as u64) == i / 512,
        pd_slot((i * 0x20_0000) as u64) == i,
        entry_address_ok((i * 0x20_0000) as u64),
        (i * 0x20_0000) as u64 & LARGE_PAGE_ADDRESS_MASK == (i * 0x20_0000) as u64,
        (i << 21u64) & PFN_MASK == (i * 0x20_0000) as u64,
{
    assert(i < 262144 ==> {
        &&& (((i * 0x20_0000) as u64) >> 39u64) & 0x1ffu64 == 0
        &&& (((i * 0x20_0000) as u64) >> 30u64) & 0x1ffu64 == i / 512
        &&& (((i * 0x20_0000) as u64) >> 21u64) & 0x1ffu64 == i % 512
        &&& ((i * 0x20_0000) as u64) & 0x000f_ffff_ffff_f000u64 == (i * 0x20_0000) as u64
        &&& ((i * 0x20_0000) as u64) & 0x000f_ffff_ffe0_0000u64 == (i * 0x20_0000) as u64
        &&& (i << 21u64) & 0x000f_ffff_ffff_f000u64 == (i * 0x20_0000) as u64
    }) by (bit_vector);
}

/// Indices of the `i`-th 4 KiB page.
pub proof fn lemma_base_page_indices(i: u64)
    requires
        i < 134217728,
    ensures
        pml4_index_spec((i * 0x1000) as u64) == 0,
        pdpt_index_spec((i * 0x1000) as u64) == i / 262144,
        pd_slot((i * 0x1000) as u64) == i / 512,
        pt_key((i * 0x1000) as u64) == i,
        entry_address_ok((i * 0x1000) as u64),
{
    assert(i < 134217728 ==> {
        &&& (((i * 0x1000) as u64) >> 39u64) & 0x1ffu64 == 0
        &&& (((i * 0x1000) as u64) >> 30u64) & 0x1ffu64 == i / 262144
        &&& (((i * 0x1000) as u64) >> 21u64) & 0x1ffu64 == (i / 512) % 512
        &&& (((i * 0x1000) as u64) >> 12u64) & 0x1ffu64 == i % 512
        &&& ((i * 0x1000) as u64) & 0x000f_ffff_ffff_f000u64 == (i * 0x1000) as u64
    }) by (bit_vector);
    assert(((i / 262144) * 512 + (i / 512) % 512) == i / 512);
    assert((i / 512) * 512 + i % 512 == i);
}

/// A guest physical address below 512 GiB splits into its 2 MiB page and
/// the offset into it, and into its 4 KiB page and the offset into it.
pub proof fn lemma_split_address(g: u64)
    requires
        g < 0x80_0000_0000,
    ensures
        pml4_index_spec(g) == 0,
        pd_slot(g) == g / 0x20_0000,
        pt_key(g) == g / 0x1000,
        ((g / 0x20_0000) * 0x20_0000) as u64 | (g & 0x1f_ffffu64) == g,
        ((g / 0x1000) * 0x1000) as u64 | (g & 0xfffu64) == g,
{
    assert(g < 0x80_0000_0000 ==> {
        &&& (g >> 39u64) & 0x1ffu64 == 0
        &&& ((g >> 30u64) & 0x1ffu64) * 512 + ((g >> 21u64) & 0x1ffu64) == g / 0x20_0000
        &&& (((g >> 30u64) & 0x1ffu64) * 512 + ((g >> 21u64) & 0x1ffu64)) * 512 + ((g >> 12u64)
            & 0x1ffu64) == g / 0x1000
        &&& (((g / 0x20_0000) * 0x20_0000) as u64) | (g & 0x1f_ffffu64) == g
        &&& (((g / 0x1000) * 0x1000) as u64) | (g & 0xfffu64) == g
    }) by (bit_vector);
}

/// A page-directory entry with its flags cleared: its address is kept and
/// it is no longer present. An entry that is not present stays as it is.
pub open spec fn unmapped(e: u64) -> u64 {
    if entry_present(e) {
        e & ADDRESS_MASK
    } else {
        e
    }
}

/// A PDPT entry with the flags of an access type, keeping its address.
pub open spec fn relabel_pdpt(e: u64, access: AccessType) -> u64 {
    pdpt_entry_spec(entry_address(e), access_flags(access, e & PDPT_FLAGS_MASK))
}

/// A page-directory entry with the flags of an access type, keeping its
/// address.
pub open spec fn relabel_pd(e: u64, access: AccessType) -> u64 {
    pd_entry_spec(entry_address(e), access_flags(access, e & PD_FLAGS_MASK))
}

/// A page-table entry with the flags of an access type, keeping its address.
pub open spec fn relabel_pt(e: u64, access: AccessType) -> u64 {
    pt_entry_spec(entry_address(e), access_flags(access, e & PT_FLAGS_MASK))
}

/// The permission the other pages get when one page gets `access`.
pub open spec fn other_access(access: AccessType) -> AccessType {
    if access == AccessType::ReadWrite {
        AccessType::ReadWriteExecute
    } else {
        AccessType::ReadWrite
    }
}

/// Whether `change_permission_single_page` leaves an entry as it is when it
/// gives the other pages their permission: the entry is not executable and
/// the other pages are not to be executable either.
pub open spec fn keeps_entry(e: u64, access: AccessType) -> bool {
    entry_fetch_disabled(e) && access != AccessType::ReadWrite
}

/// An entry after `change_permission_single_page` gave the other pages
/// their permission.
pub open spec fn other_step_pdpt(e: u64, access: AccessType) -> u64 {
    if keeps_entry(e, access) {
        e
    } else {
        relabel_pdpt(e, other_access(access))
    }
}

pub open spec fn other_step_pd(e: u64, access: AccessType) -> u64 {
    if keeps_entry(e, access) {
        e
    } else {
        relabel_pd(e, other_access(access))
    }
}

pub open spec fn other_step_pt(e: u64, access: AccessType) -> u64 {
    if keeps_entry(e, access) {
        e
    } else {
        relabel_pt(e, other_access(access))
    }
}

/// The page-table entries after the `n` entries from key `base` on went
/// through `other_step_pt`; each of them is in the map afterwards.
pub open spec fn pt_block_stepped(pt: Map<u64, u64>, base: int, n: int, access: AccessType) -> Map<
    u64,
    u64,
> {
    Map::new(
        |kk: u64| pt.contains_key(kk) || (base <= kk < base + n),
        |kk: u64|
            if base <= kk < base + n {
                other_step_pt(pt_value(pt, kk), access)
            } else {
                pt[kk]
            },
    )
}

/// A 4 KiB aligned guest address from which 512 consecutive 4 KiB pages can
/// be mapped.
pub open spec fn split_range_ok(guest_pa: u64) -> bool {
    entry_address_ok(guest_pa) && guest_pa + 0x1ff000 < 0x10_0000_0000_0000
}

/// Relabeling an entry keeps its address and makes it present, executable
/// exactly for `ReadWriteExecute`.
pub proof fn lemma_relabel(e: u64, access: AccessType)
    ensures
        entry_address(relabel_pdpt(e, access)) == entry_address(e),
        entry_present(relabel_pdpt(e, access)),
        entry_fetch_disabled(relabel_pdpt(e, access)) == (access == AccessType::ReadWrite),
        entry_address(relabel_pd(e, access)) == entry_address(e),
        entry_present(relabel_pd(e, access)),
        entry_large(relabel_pd(e, access)) == entry_large(e),
        entry_fetch_disabled(relabel_pd(e, access)) == (access == AccessType::ReadWrite),
        entry_address(relabel_pt(e, access)) == entry_address(e),
        entry_present(relabel_pt(e, access)),
        entry_fetch_disabled(relabel_pt(e, access)) == (access == AccessType::ReadWrite),
{
    let a = e & 0x000f_ffff_ffff_f000u64;
    let rw1 = (e & 0x8000_0000_0000_1fffu64) | 7u64 | 0x8000_0000_0000_0000u64;
    let rwx1 = ((e & 0x8000_0000_0000_1fffu64) | 7u64) & !0x8000_0000_0000_0000u64;
    let rw3 = (e & 0x8000_0000_0000_0f7fu64) | 7u64 | 0x8000_0000_0000_0000u64;
    let rwx3 = ((e & 0x8000_0000_0000_0f7fu64) | 7u64) & !0x8000_0000_0000_0000u64;
    assert({
        &&& (a | (rw1 & 0x8000_0000_0000_1fffu64)) & 0x000f_ffff_ffff_f000u64 == a
        &&& (a | (rw1 & 0x8000_0000_0000_1fffu64)) & 1u64 != 0
        &&& (a | (rw1 & 0x8000_0000_0000_1fffu64)) & 0x8000_0000_0000_0000u64 != 0
        &&& ((a | (rw1 & 0x8000_0000_0000_1fffu64)) & 0x80u64 != 0) == (e & 0x80u64 != 0)
        &&& (a | (rwx1 & 0x8000_0000_0000_1fffu64)) & 0x000f_ffff_ffff_f000u64 == a
        &&& (a | (rwx1 & 0x8000_0000_0000_1fffu64)) & 1u64 != 0
        &&& (a | (rwx1 & 0x8000_0000_0000_1fffu64)) & 0x8000_0000_0000_0000u64 == 0
        &&& ((a | (rwx1 & 0x8000_0000_0000_1fffu64)) & 0x80u64 != 0) == (e & 0x80u64 != 0)
        &&& (a | (rw3 & 0x8000_0000_0000_0f7fu64)) & 0x000f_ffff_ffff_f000u64 == a
        &&& (a | (rw3 & 0x8000_0000_0000_0f7fu64)) & 1u64 != 0
        &&& (a | (rw3 & 0x8000_0000_0000_0f7fu64)) & 0x8000_0000_0000_0000u64 != 0
        &&& (a | (rwx3 & 0x8000_0000_0000_0f7fu64)) & 0x000f_ffff_ffff_f000u64 == a
        &&& (a | (rwx3 & 0x8000_0000_0000_0f7fu64)) & 1u64 != 0
        &&& (a | (rwx3 & 0x8000_0000_0000_0f7fu64)) & 0x8000_0000_0000_0000u64 == 0
    }) by (bit_vector)
        requires
            a == e & 0x000f_ffff_ffff_f000u64,
            rw1 == (e & 0x8000_0000_0000_1fffu64) | 7u64 | 0x8000_0000_0000_0000u64,
            rwx1 == ((e & 0x8000_0000_0000_1fffu64) | 7u64) & !0x8000_0000_0000_0000u64,
            rw3 == (e & 0x8000_0000_0000_0f7fu64) | 7u64 | 0x8000_0000_0000_0000u64,
            rwx3 == ((e & 0x8000_0000_0000_0f7fu64) | 7u64) & !0x8000_0000_0000_0000u64,
    ;
}

pub proof fn lemma_entry_address_ok(e: u64)
    ensures
        entry_address_ok(entry_address(e)),
{
    assert((e & 0x000f_ffff_ffff_f000u64) & 0x000f_ffff_ffff_f000u64 == e & 0x000f_ffff_ffff_f000u64)
        by (bit_vector);
}

/// The contents after `change_page_permission(guest_pa, host_pa, access)`:
/// the entry that maps the page, 2 MiB or 4 KiB, is pointed to `host_pa`
/// and gets the flags of the access type.
pub open spec fn permission_changed_view(v: NptView, guest_pa: u64, host_pa: u64, access: AccessType) -> NptView {
    let k = pd_slot(guest_pa);
    let key = pt_key(guest_pa);
    if entry_large(v.pd[k]) {
        NptView {
            pd: v.pd.update(k, pd_entry_spec(host_pa, access_flags(access, v.pd[k] & PD_FLAGS_MASK))),
            ..v
        }
    } else {
        NptView {
            pt: v.pt.insert(
                key,
                pt_entry_spec(host_pa, access_flags(access, pt_value(v.pt, key) & PT_FLAGS_MASK)),
            ),
            ..v
        }
    }
}

/// Entries made from a valid address and the flags of an access type are
/// present, refer to that address, are executable exactly for
/// `ReadWriteExecute` and keep the large-page bit of the old flags.
pub proof fn lemma_access_entry(pa: u64, e: u64, access: AccessType)
    requires
        entry_address_ok(pa),
    ensures
        entry_present(pd_entry_spec(pa, access_flags(access, e & PD_FLAGS_MASK))),
        entry_large(pd_entry_spec(pa, access_flags(access, e & PD_FLAGS_MASK))) == entry_large(e),
        entry_fetch_disabled(pd_entry_spec(pa, access_flags(access, e & PD_FLAGS_MASK))) == (access
            == AccessType::ReadWrite),
        pd_entry_spec(pa, access_flags(access, e & PD_FLAGS_MASK)) & LARGE_PAGE_ADDRESS_MASK == pa
            & LARGE_PAGE_ADDRESS_MASK,
        entry_present(pt_entry_spec(pa, access_flags(access, e & PT_FLAGS_MASK))),
        entry_address(pt_entry_spec(pa, access_flags(access, e & PT_FLAGS_MASK))) == pa,
        entry_fetch_disabled(pt_entry_spec(pa, access_flags(access, e & PT_FLAGS_MASK))) == (access
            == AccessType::ReadWrite),
{
    let rw1 = (e & 0x8000_0000_0000_1fffu64) | 7u64 | 0x8000_0000_0000_0000u64;
    let rwx1 = ((e & 0x8000_0000_0000_1fffu64) | 7u64) & !0x8000_0000_0000_0000u64;
    let rw3 = (e & 0x8000_0000_0000_0f7fu64) | 7u64 | 0x8000_0000_0000_0000u64;
    let rwx3 = ((e & 0x8000_0000_0000_0f7fu64) | 7u64) & !0x8000_0000_0000_0000u64;
    assert({
        &&& (pa | (rw1 & 0x8000_0000_0000_1fffu64)) & 1u64 != 0
        &&& ((pa | (rw1 & 0x8000_0000_0000_1fffu64)) & 0x80u64 != 0) == (e & 0x80u64 != 0)
        &&& (pa | (rw1 & 0x8000_0000_0000_1fffu64)) & 0x8000_0000_0000_0000u64 != 0
        &&& (pa | (rw1 & 0x8000_0000_0000_1fffu64)) & 0x000f_ffff_ffe0_0000u64 == pa
            & 0x000f_ffff_ffe0_0000u64
        &&& (pa | (rwx1 & 0x8000_0000_0000_1fffu64)) & 1u64 != 0
        &&& ((pa | (rwx1 & 0x8000_0000_0000_1fffu64)) & 0x80u64 != 0) == (e & 0x80u64 != 0)
        &&& (pa | (rwx1 & 0x8000_0000_0000_1fffu64)) & 0x8000_0000_0000_0000u64 == 0
        &&& (pa | (rwx1 & 0x8000_0000_0000_1fffu64)) & 0x000f_ffff_ffe0_0000u64 == pa
            & 0x000f_ffff_ffe0_0000u64
        &&& (pa | (rw3 & 0x8000_0000_0000_0f7fu64)) & 1u64 != 0
        &&& (pa | (rw3 & 0x8000_0000_0000_0f7fu64)) & 0x000f_ffff_ffff_f000u64 == pa
        &&& (pa | (rw3 & 0x8000_0000_0000_0f7fu64)) & 0x8000_0000_0000_0000u64 != 0
        &&& (pa | (rwx3 & 0x8000_0000_0000_0f7fu64)) & 1u64 != 0
        &&& (pa | (rwx3 & 0x8000_0000_0000_0f7fu64)) & 0x000f_ffff_ffff_f000u64 == pa
        &&& (pa | (rwx3 & 0x8000_0000_0000_0f7fu64)) & 0x8000_0000_0000_0000u64 == 0
    }) by (bit_vector)
        requires
            pa & 0x000f_ffff_ffff_f000u64 == pa,
            rw1 == (e & 0x8000_0000_0000_1fffu64) | 7u64 | 0x8000_0000_0000_0000u64,
            rwx1 == ((e & 0x8000_0000_0000_1fffu64) | 7u64) & !0x8000_0000_0000_0000u64,
            rw3 == (e & 0x8000_0000_0000_0f7fu64) | 7u64 | 0x8000_0000_0000_0000u64,
            rwx3 == ((e & 0x8000_0000_0000_0f7fu64) | 7u64) & !0x8000_0000_0000_0000u64,
    ;
}

/// An address inside the 2 MiB block that starts at `g`.
pub proof fn lemma_block_address(g: u64, off: u64)
    requires
        g & 0x1f_ffffu64 == 0,
        off < 0x20_0000,
        g <= 0xffff_ffff_ffe0_0000u64,
    ensures
        pml4_index_spec((g + off) as u64) == pml4_index_spec(g),
        pd_slot((g + off) as u64) == pd_slot(g),
        pt_key((g + off) as u64) == pd_slot(g) * 512 + off / 4096,
        ((g + off) as u64) & 0x1f_ffffu64 == off,
        g | off == g + off,
        ((g + (off / 4096) * 4096) as u64) | (((g + off) as u64) & 0xfffu64) == g + off,
        pml4_index_spec((g + (off / 4096) * 4096) as u64) == pml4_index_spec(g),
        pt_key((g + (off / 4096) * 4096) as u64) == pd_slot(g) * 512 + off / 4096,
{
    assert({
        &&& (((g + off) as u64) >> 39u64) & 0x1ffu64 == (g >> 39u64) & 0x1ffu64
        &&& (((g + off) as u64) >> 30u64) & 0x1ffu64 == (g >> 30u64) & 0x1ffu64
        &&& (((g + off) as u64) >> 21u64) & 0x1ffu64 == (g >> 21u64) & 0x1ffu64
        &&& (((g + off) as u64) >> 12u64) & 0x1ffu64 == off / 4096
        &&& ((g + off) as u64) & 0x1f_ffffu64 == off
        &&& g | off == g + off
        &&& ((g + (off / 4096) * 4096) as u64) | (((g + off) as u64) & 0xfffu64) == g + off
        &&& (((g + (off / 4096) * 4096) as u64) >> 39u64) & 0x1ffu64 == (g >> 39u64) & 0x1ffu64
        &&& (((g + (off / 4096) * 4096) as u64) >> 30u64) & 0x1ffu64 == (g >> 30u64) & 0x1ffu64
        &&& (((g + (off / 4096) * 4096) as u64) >> 21u64) & 0x1ffu64 == (g >> 21u64) & 0x1ffu64
        &&& (((g + (off / 4096) * 4096) as u64) >> 12u64) & 0x1ffu64 == off / 4096
    }) by (bit_vector)
        requires
            g & 0x1f_ffffu64 == 0,
            off < 0x20_0000,
            g <= 0xffff_ffff_ffe0_0000u64,
    ;
    lemma_index_bounds(g);
    lemma_index_bounds((g + off) as u64);
    lemma_index_bounds((g + (off / 4096) * 4096) as u64);
}

/// Whether `change_page_permission` can change the page of `g`: its
/// page-directory entry maps a large page or its page-table entry is
/// present.
pub open spec fn covered(v: NptView, g: u64) -> bool {
    entry_large(v.pd[pd_slot(g)]) || entry_present(pt_value(v.pt, pt_key(g)))
}

/// Every page directory entry maps a large page or all 512 entries of its
/// page table are present.
pub open spec fn all_blocks_covered(v: NptView) -> bool {
    forall|s: int|
        0 <= s < 262144 ==> entry_large(#[trigger] v.pd[s]) || forall|m: int|
            0 <= m < 512 ==> entry_present(#[trigger] pt_value(v.pt, (s * 512 + m) as u64))
}

/// A page that `change_page_permission` changed stays covered, and so does
/// every other page.
pub proof fn lemma_permission_changed_covered(v: NptView, guest_pa: u64, host_pa: u64, access: AccessType)
    requires
        view_wf(v),
        entry_address_ok(host_pa),
    ensures
        ({
            let w = permission_changed_view(v, guest_pa, host_pa, access);
            &&& view_wf(w)
            &&& covered(w, guest_pa)
            &&& forall|g: u64| covered(v, g) ==> #[trigger] covered(w, g)
            &&& all_blocks_covered(v) ==> all_blocks_covered(w)
        }),
{
    lemma_index_bounds(guest_pa);
    let k = pd_slot(guest_pa);
    let w = permission_changed_view(v, guest_pa, host_pa, access);
    lemma_access_entry(host_pa, v.pd[k], access);
    lemma_access_entry(host_pa, pt_value(v.pt, pt_key(guest_pa)), access);
    assert forall|g: u64| covered(v, g) implies #[trigger] covered(w, g) by {
        lemma_index_bounds(g);
    }
    if all_blocks_covered(v) {
        assert forall|s: int| 0 <= s < 262144 implies entry_large(#[trigger] w.pd[s]) || forall|m: int|
            0 <= m < 512 ==> entry_present(#[trigger] pt_value(w.pt, (s * 512 + m) as u64)) by {
            if !entry_large(w.pd[s]) {
                assert(!entry_large(v.pd[s]));
                assert forall|m: int| 0 <= m < 512 implies entry_present(
                    #[trigger] pt_value(w.pt, (s * 512 + m) as u64),
                ) by {
                    assert(entry_present(pt_value(v.pt, (s * 512 + m) as u64)));
                }
            }
        }
    }
}

/// Every page is covered by the 4 KiB identity map, and all its blocks are.
pub proof fn lemma_identity_base_covered(npt: &NestedPageTable)
    requires
        npt.wf(),
    ensures
        forall|g: u64| #[trigger] covered(npt.identity_base_view(), g),
        all_blocks_covered(npt.identity_base_view()),
{
    let v = npt.identity_base_view();
    assert forall|g: u64| #[trigger] covered(v, g) by {
        lemma_index_bounds(g);
        lemma_base_page_indices(pt_key(g) as u64);
        lemma_table_entries((pt_key(g) * 0x1000) as u64);
    }
    assert forall|s: int| 0 <= s < 262144 implies entry_large(#[trigger] v.pd[s]) || forall|m: int|
        0 <= m < 512 ==> entry_present(#[trigger] pt_value(v.pt, (s * 512 + m) as u64)) by {
        assert forall|m: int| 0 <= m < 512 implies entry_present(
            #[trigger] pt_value(v.pt, (s * 512 + m) as u64),
        ) by {
            lemma_base_page_indices((s * 512 + m) as u64);
            lemma_table_entries(((s * 512 + m) * 0x1000) as u64);
        }
    }
}

/// Every block of the 2 MiB identity map maps a large page.
pub proof fn lemma_identity_large_covered(npt: &NestedPageTable)
    requires
        npt.wf(),
    ensures
        all_blocks_covered(npt.identity_large_view()),
{
    let v = npt.identity_large_view();
    assert forall|s: int| 0 <= s < 262144 implies entry_large(#[trigger] v.pd[s]) by {
        lemma_large_page_indices(s as u64);
        lemma_large_entry((s * 0x20_0000) as u64);
    }
}

/// The lengths of the tables.
pub open spec fn view_wf(v: NptView) -> bool {
    &&& v.pml4.len() == 512
    &&& v.pdpt.len() == 512
    &&& v.pd.len() == 262144
}

/// Addresses with the same page-table key lie in the same page directory.
pub proof fn lemma_same_page_indices(a: u64, g: u64)
    requires
        pt_key(a) == pt_key(g),
    ensures
        pd_slot(a) == pd_slot(g),
        pdpt_index_spec(a) == pdpt_index_spec(g),
{
    lemma_index_bounds(a);
    lemma_index_bounds(g);
    lemma_same_large_page_indices(a, g);
}

/// Addresses with the same page-directory slot lie under the same PDPT entry.
pub proof fn lemma_same_large_page_indices(a: u64, g: u64)
    requires
        pd_slot(a) == pd_slot(g) || pt_key(a) == pt_key(g),
    ensures
        pd_slot(a) == pd_slot(g),
        pdpt_index_spec(a) == pdpt_index_spec(g),
{
    lemma_index_bounds(a);
    lemma_index_bounds(g);
}

/// A nested page table that can map the first 512 GiB of guest physical
/// memory with 2 MiB or 4 KiB pages.
///
/// The physical addresses of the tables are part of the value: `pml4_pa` of
/// the PML4, `pdpt_pa` of the page-directory-pointer table, `pd_pas[i]` of
/// page directory `i` and `pt_pas[i * 512 + j]` of the page table that
/// entry `j` of page directory `i` refers to.
pub struct NestedPageTable {
    pub pml4: Vec<u64>,
    pub pdp_entries: Vec<u64>,
    pub pd_entries: Vec<u64>,
    pub pt_entries: HashMap<u64, u64>,
    pub pml4_pa: u64,
    pub pdpt_pa: u64,
    pub pd_pas: Vec<u64>,
    pub pt_pas: Vec<u64>,
}

impl NestedPageTable {
    pub open spec fn view(&self) -> NptView {
        NptView { pml4: self.pml4@, pdpt: self.pdp_entries@, pd: self.pd_entries@, pt: self.pt_entries@ }
    }

    /// Where the entries that translate `g` stand: its index in the PML4, in
    /// the PDPT, in `pd_entries` (the page directories one after the other)
    /// and its key in `pt_entries` (the page tables one after the other).
    pub fn entry_indices(g: u64) -> (r: (usize, usize, usize, u64))
        ensures
            r.0 == pml4_index_spec(g),
            r.1 == pdpt_index_spec(g),
            r.2 == pd_slot(g),
            r.3 == pt_key(g),
            r.0 < 512,
            r.1 < 512,
            r.2 < 262144,
            r.3 < 134217728,
    {
        proof {
            lemma_index_bounds(g);
        }
        let slot = pdpt_index_of(g) * ENTRIES + pd_index_of(g);
        let key = (slot * ENTRIES + pt_index_of(g)) as u64;
        (pml4_index_of(g), pdpt_index_of(g), slot, key)
    }

    /// Whether the page of `g` is mapped in its block: by a large page, or
    /// by a present entry of its page table.
    pub fn is_covered(&self, g: u64) -> (r: bool)
        requires
            self.wf(),
        ensures
            r == covered(self.view(), g),
    {
        proof {
            lemma_index_bounds(g);
        }
        let slot = pdpt_index_of(g) * ENTRIES + pd_index_of(g);
        if is_page(self.pd_entries[slot]) {
            return true;
        }
        let key = (slot * ENTRIES + pt_index_of(g)) as u64;
        proof {
            assert(key == pt_key(g));
            lemma_zero_entry_absent();
        }
        match self.pt_entries.get(&key) {
            Some(e) => is_present(*e),
            None => false,
        }
    }

    pub open spec fn wf(&self) -> bool {
        &&& self.pml4@.len() == 512
        &&& self.pdp_entries@.len() == 512
        &&& self.pd_entries@.len() == 262144
        &&& self.pd_pas@.len() == 512
        &&& self.pt_pas@.len() == 262144
        &&& entry_address_ok(self.pml4_pa)
        &&& entry_address_ok(self.pdpt_pa)
        &&& forall|i: int| 0 <= i < 512 ==> entry_address_ok(#[trigger] self.pd_pas@[i])
        &&& forall|i: int| 0 <= i < 262144 ==> entry_address_ok(#[trigger] self.pt_pas@[i])
    }

    pub open spec fn has_addresses(&self, addresses: &TableAddresses) -> bool {
        &&& self.pml4_pa == addresses.pml4_pa
        &&& self.pdpt_pa == addresses.pdpt_pa
        &&& self.pd_pas@ == addresses.pd_pas@
        &&& self.pt_pas@ == addresses.pt_pas@
    }

    /// Every present link refers to the table the walk goes on with: PML4
    /// entries to the page-directory-pointer table, its entry `i` to page
    /// directory `i`, and an entry of a page directory that does not map a
    /// large page to its page table.
    pub open spec fn links_ok(&self, v: NptView) -> bool {
        &&& forall|i: int|
            0 <= i < 512 && entry_present(#[trigger] v.pml4[i]) ==> entry_address(v.pml4[i])
                == self.pdpt_pa
        &&& forall|i: int|
            0 <= i < 512 && entry_present(#[trigger] v.pdpt[i]) ==> entry_address(v.pdpt[i])
                == self.pd_pas@[i]
        &&& forall|k: int|
            0 <= k < 262144 && entry_present(#[trigger] v.pd[k]) && !entry_large(v.pd[k])
                ==> entry_address(v.pd[k]) == self.pt_pas@[k]
    }

    pub proof fn lemma_wf_view(&self)
        requires
            self.wf(),
        ensures
            view_wf(self.view()),
    {
    }

    pub open spec fn resolve(&self, gpa: u64) -> Option<u64> {
        resolve_view(self.view(), gpa)
    }

    /// Both tables live at the same physical addresses.
    pub open spec fn same_layout(&self, other: &Self) -> bool {
        &&& self.pml4_pa == other.pml4_pa
        &&& self.pdpt_pa == other.pdpt_pa
        &&& self.pd_pas@ == other.pd_pas@
        &&& self.pt_pas@ == other.pt_pas@
    }

    /// The contents after `map_2mb(guest_pa, host_pa)`: each missing level on
    /// the way to the page-directory entry of `guest_pa` is filled in, and
    /// present entries are left alone.
    pub open spec fn mapped_2mb(&self, v: NptView, guest_pa: u64, host_pa: u64) -> NptView {
        let l4 = pml4_index_spec(guest_pa) as int;
        let l3 = pdpt_index_spec(guest_pa) as int;
        let k = pd_slot(guest_pa);
        NptView {
            pml4: if entry_present(v.pml4[l4]) {
                v.pml4
            } else {
                v.pml4.update(l4, pml4_entry_spec(self.pdpt_pa, TABLE_FLAGS))
            },
            pdpt: if entry_present(v.pdpt[l3]) {
                v.pdpt
            } else {
                v.pdpt.update(l3, pdpt_entry_spec(self.pd_pas@[l3], TABLE_FLAGS))
            },
            pd: if entry_present(v.pd[k]) {
                v.pd
            } else {
                v.pd.update(k, pd_entry_spec(host_pa, LARGE_PAGE_FLAGS))
            },
            pt: v.pt,
        }
    }

    /// The contents after `map_4kb(guest_pa, host_pa)`: each missing level on
    /// the way to the page-table entry of `guest_pa` is filled in, and
    /// present entries are left alone.
    pub open spec fn mapped_4kb(&self, v: NptView, guest_pa: u64, host_pa: u64) -> NptView {
        let l4 = pml4_index_spec(guest_pa) as int;
        let l3 = pdpt_index_spec(guest_pa) as int;
        let k = pd_slot(guest_pa);
        let key = pt_key(guest_pa);
        NptView {
            pml4: if entry_present(v.pml4[l4]) {
                v.pml4
            } else {
                v.pml4.update(l4, pml4_entry_spec(self.pdpt_pa, TABLE_FLAGS))
            },
            pdpt: if entry_present(v.pdpt[l3]) {
                v.pdpt
            } else {
                v.pdpt.update(l3, pdpt_entry_spec(self.pd_pas@[l3], TABLE_FLAGS))
            },
            pd: if entry_present(v.pd[k]) {
                v.pd
            } else {
                v.pd.update(k, pd_entry_spec(self.pt_pas@[k], TABLE_FLAGS))
            },
            pt: if entry_present(pt_value(v.pt, key)) {
                v.pt
            } else {
                v.pt.insert(key, pt_entry_spec(host_pa, TABLE_FLAGS))
            },
        }
    }

    /// Mapping a 4 KiB page keeps the links right and every resolution that
    /// already existed, and when the page-table entry of the guest page was
    /// not present and the page is not covered by a 2 MiB mapping, every
    /// address in the guest page afterwards resolves into the host page.
    pub proof fn lemma_map_4kb_resolution(&self, v: NptView, guest_pa: u64, host_pa: u64)
        requires
            self.wf(),
            view_wf(v),
            self.links_ok(v),
            entry_address_ok(host_pa),
        ensures
            ({
                let v2 = self.mapped_4kb(v, guest_pa, host_pa);
                &&& view_wf(v2)
                &&& self.links_ok(v2)
                &&& forall|g: u64| #[trigger] resolve_view(v, g) is Some
                    ==> resolve_view(v2, g) == resolve_view(v, g)
                &&& (!entry_present(pt_value(v.pt, pt_key(guest_pa))) && !(entry_present(
                    v.pd[pd_slot(guest_pa)],
                ) && entry_large(v.pd[pd_slot(guest_pa)]))) ==> forall|a: u64|
                    pml4_index_spec(a) == pml4_index_spec(guest_pa) && pt_key(a) == pt_key(guest_pa)
                        ==> #[trigger] resolve_view(v2, a) == Some(host_pa | (a & 0xfffu64))
            }),
    {
        lemma_index_bounds(guest_pa);
        let v2 = self.mapped_4kb(v, guest_pa, host_pa);
        lemma_table_entries(self.pdpt_pa);
        lemma_table_entries(self.pd_pas@[pdpt_index_spec(guest_pa) as int]);
        lemma_table_entries(self.pt_pas@[pd_slot(guest_pa)]);
        lemma_table_entries(host_pa);
        assert(self.links_ok(v2));
        assert forall|g: u64| #[trigger] resolve_view(v, g) is Some implies resolve_view(v2, g)
            == resolve_view(v, g) by {
            lemma_index_bounds(g);
        }
        if !entry_present(pt_value(v.pt, pt_key(guest_pa))) && !(entry_present(v.pd[pd_slot(guest_pa)])
            && entry_large(v.pd[pd_slot(guest_pa)])) {
            assert forall|a: u64|
                pml4_index_spec(a) == pml4_index_spec(guest_pa) && pt_key(a) == pt_key(guest_pa)
                    implies #[trigger] resolve_view(v2, a) == Some(host_pa | (a & 0xfffu64)) by {
                lemma_index_bounds(a);
                lemma_same_page_indices(a, guest_pa);
                assert(entry_present(pt_value(v2.pt, pt_key(guest_pa))));
                assert(entry_present(v2.pml4[pml4_index_spec(guest_pa) as int]));
                assert(entry_present(v2.pdpt[pdpt_index_spec(guest_pa) as int]));
                assert(entry_present(v2.pd[pd_slot(guest_pa)]));
                assert(!entry_large(v2.pd[pd_slot(guest_pa)]));
                assert(entry_address(pt_value(v2.pt, pt_key(guest_pa))) == host_pa);
            }
        }
    }

    /// Mapping a 2 MiB page keeps the links right and every resolution that
    /// already existed, and when the page-directory entry of the guest
    /// address was not present, every address in its 2 MiB guest page
    /// afterwards resolves into the 2 MiB host page.
    pub proof fn lemma_map_2mb_resolution(&self, v: NptView, guest_pa: u64, host_pa: u64)
        requires
            self.wf(),
            view_wf(v),
            self.links_ok(v),
            entry_address_ok(host_pa),
        ensures
            ({
                let v2 = self.mapped_2mb(v, guest_pa, host_pa);
                &&& view_wf(v2)
                &&& self.links_ok(v2)
                &&& forall|g: u64| #[trigger] resolve_view(v, g) is Some
                    ==> resolve_view(v2, g) == resolve_view(v, g)
                &&& !entry_present(v.pd[pd_slot(guest_pa)]) ==> forall|a: u64|
                    pml4_index_spec(a) == pml4_index_spec(guest_pa) && pd_slot(a) == pd_slot(guest_pa)
                        ==> #[trigger] resolve_view(v2, a) == Some(
                        (host_pa & LARGE_PAGE_ADDRESS_MASK) | (a & 0x1f_ffffu64),
                    )
            }),
    {
        lemma_index_bounds(guest_pa);
        let v2 = self.mapped_2mb(v, guest_pa, host_pa);
        lemma_table_entries(self.pdpt_pa);
        lemma_table_entries(self.pd_pas@[pdpt_index_spec(guest_pa) as int]);
        lemma_large_entry(host_pa);
        assert forall|g: u64| #[trigger] resolve_view(v, g) is Some implies resolve_view(v2, g)
            == resolve_view(v, g) by {
            lemma_index_bounds(g);
        }
        if !entry_present(v.pd[pd_slot(guest_pa)]) {
            assert forall|a: u64|
                pml4_index_spec(a) == pml4_index_spec(guest_pa) && pd_slot(a) == pd_slot(guest_pa)
                    implies #[trigger] resolve_view(v2, a) == Some(
                    (host_pa & LARGE_PAGE_ADDRESS_MASK) | (a & 0x1f_ffffu64),
                ) by {
                lemma_index_bounds(a);
                lemma_same_large_page_indices(a, guest_pa);
            }
        }
    }

    /// Joining the 4 KiB pages of a 2 MiB aligned guest block keeps the links
    /// right and makes every address of the block resolve to itself
    /// through one 2 MiB page.
    pub proof fn lemma_join_resolution(&self, guest_pa: u64)
        requires
            self.wf(),
            self.links_ok(self.view()),
            !entry_large(self.view().pd[pd_slot(guest_pa)]),
            guest_pa & 0x1f_ffffu64 == 0,
            entry_address_ok(guest_pa),
        ensures
            self.links_ok(self.join_view(self.view(), guest_pa)),
            forall|off: u64|
                off < 0x20_0000 ==> #[trigger] resolve_view(
                    self.join_view(self.view(), guest_pa),
                    (guest_pa + off) as u64,
                ) == Some((guest_pa + off) as u64),
    {
        let v = self.view();
        let k = pd_slot(guest_pa);
        lemma_index_bounds(guest_pa);
        let v1 = NptView { pd: v.pd.update(k, unmapped(v.pd[k])), ..v };
        let e = v.pd[k];
        assert(!entry_present(unmapped(e))) by {
            lemma_address_bits_absent(e);
        }
        assert(self.links_ok(v1));
        self.lemma_map_2mb_resolution(v1, guest_pa, guest_pa);
        assert(guest_pa & 0x000f_ffff_ffff_f000u64 == guest_pa && guest_pa & 0x1f_ffffu64 == 0
            ==> guest_pa & 0x000f_ffff_ffe0_0000u64 == guest_pa && guest_pa
            <= 0xffff_ffff_ffe0_0000u64) by (bit_vector);
        assert forall|off: u64| off < 0x20_0000 implies #[trigger] resolve_view(
            self.join_view(v, guest_pa),
            (guest_pa + off) as u64,
        ) == Some((guest_pa + off) as u64) by {
            lemma_block_address(guest_pa, off);
        }
    }

    /// Mapping the 4 KiB pages of a 2 MiB aligned block below present PML4
    /// and PDPT entries leaves the PML4 and the PDPT as they are.
    proof fn lemma_pages_mapped_upper(&self, v: NptView, guest_pa: u64, n: nat)
        requires
            n <= 512,
            guest_pa & 0x1f_ffffu64 == 0,
            split_range_ok(guest_pa),
            entry_present(v.pml4[pml4_index_spec(guest_pa) as int]),
            entry_present(v.pdpt[pdpt_index_spec(guest_pa) as int]),
        ensures
            self.pages_mapped(v, guest_pa, n).pml4 == v.pml4,
            self.pages_mapped(v, guest_pa, n).pdpt == v.pdpt,
        decreases n,
    {
        if n > 0 {
            self.lemma_pages_mapped_upper(v, guest_pa, (n - 1) as nat);
            let off = ((n - 1) * 0x1000) as u64;
            lemma_block_address(guest_pa, off);
            lemma_same_large_page_indices((guest_pa + off) as u64, guest_pa);
        }
    }

    /// Joining restores what splitting changed: a 2 MiB page mapped to
    /// itself as `map_2mb` maps it, under present PML4 and PDPT entries,
    /// split into 4 KiB pages (`split`, as `split_2mb_to_4kb` leaves the
    /// table) and joined again (`joined`, as `join_4kb_to_2mb` leaves it),
    /// gives back the same PML4, PDPT and page-directory entries, and every
    /// guest address resolves as it did before the split.
    pub proof fn lemma_join_restores_table(&self, split: &Self, joined: &Self, guest_pa: u64)
        requires
            self.wf(),
            guest_pa & 0x1f_ffffu64 == 0,
            split_range_ok(guest_pa),
            self.view().pd[pd_slot(guest_pa)] == pd_entry_spec(guest_pa, LARGE_PAGE_FLAGS),
            entry_present(self.view().pml4[pml4_index_spec(guest_pa) as int]),
            entry_present(self.view().pdpt[pdpt_index_spec(guest_pa) as int]),
            split.wf(),
            split.same_layout(self),
            split.view() == self.split_view(self.view(), guest_pa),
            joined.view() == split.join_view(split.view(), guest_pa),
        ensures
            joined.view().pml4 == self.view().pml4,
            joined.view().pdpt == self.view().pdpt,
            joined.view().pd == self.view().pd,
            forall|a: u64| #[trigger] resolve_view(joined.view(), a) == resolve_view(self.view(), a),
    {
        let v = self.view();
        let k = pd_slot(guest_pa);
        lemma_index_bounds(guest_pa);
        self.lemma_wf_view();
        lemma_large_entry(guest_pa);
        let v0 = NptView { pd: v.pd.update(k, unmapped(v.pd[k])), ..v };
        assert(!entry_present(unmapped(v.pd[k]))) by {
            lemma_address_bits_absent(v.pd[k]);
        }
        self.lemma_pages_mapped_keys(v0, guest_pa, 512);
        self.lemma_pages_mapped_upper(v0, guest_pa, 512);
        let w = split.view();
        assert(!entry_present(unmapped(w.pd[k]))) by {
            lemma_address_bits_absent(w.pd[k]);
        }
        let j = joined.view();
        assert(j.pd =~= v.pd) by {
            assert forall|s: int| 0 <= s < 262144 implies #[trigger] j.pd[s] == v.pd[s] by {
                if s != k {
                    assert(w.pd[s] == v0.pd[s]);
                }
            }
        }
        assert forall|a: u64| #[trigger] resolve_view(j, a) == resolve_view(v, a) by {
            lemma_index_bounds(a);
            if pd_slot(a) != k {
                let key = pt_key(a);
                assert(!(k * 512 <= key < k * 512 + 512));
                assert(pt_value(j.pt, key) == pt_value(v.pt, key));
            }
        }
    }

    /// Joining undoes splitting: a 2 MiB page that maps its block to itself,
    /// split into 4 KiB pages (`split`, as `split_2mb_to_4kb` leaves the
    /// table) and joined again (`joined`, as `join_4kb_to_2mb` leaves it),
    /// is a 2 MiB page once more, and every address of the block resolves
    /// to itself before, in between and after. For a block whose page-table
    /// entries were not present before the split.
    pub proof fn lemma_join_undoes_split(&self, split: &Self, joined: &Self, guest_pa: u64)
        requires
            self.wf(),
            self.links_ok(self.view()),
            guest_pa & 0x1f_ffffu64 == 0,
            split_range_ok(guest_pa),
            entry_large(self.view().pd[pd_slot(guest_pa)]),
            resolve_view(self.view(), guest_pa) == Some(guest_pa),
            forall|m: int|
                0 <= m < 512 ==> !entry_present(
                    #[trigger] pt_value(self.view().pt, (pd_slot(guest_pa) * 512 + m) as u64),
                ),
            split.wf(),
            split.same_layout(self),
            split.view() == self.split_view(self.view(), guest_pa),
            joined.view() == split.join_view(split.view(), guest_pa),
        ensures
            entry_large(joined.view().pd[pd_slot(guest_pa)]),
            forall|off: u64|
                off < 0x20_0000 ==> {
                    &&& #[trigger] resolve_view(self.view(), (guest_pa + off) as u64) == Some(
                        (guest_pa + off) as u64,
                    )
                    &&& resolve_view(split.view(), (guest_pa + off) as u64) == Some(
                        (guest_pa + off) as u64,
                    )
                    &&& resolve_view(joined.view(), (guest_pa + off) as u64) == Some(
                        (guest_pa + off) as u64,
                    )
                },
    {
        let v = self.view();
        let k = pd_slot(guest_pa);
        lemma_index_bounds(guest_pa);
        self.lemma_split_resolution(guest_pa);
        self.lemma_wf_view();
        let v0 = NptView { pd: v.pd.update(k, unmapped(v.pd[k])), ..v };
        assert(!entry_present(unmapped(v.pd[k]))) by {
            lemma_address_bits_absent(v.pd[k]);
        }
        self.lemma_pages_mapped_keys(v0, guest_pa, 512);
        split.lemma_join_resolution(guest_pa);
        let pde = v.pd[k];
        assert((pde & LARGE_PAGE_ADDRESS_MASK) | 0u64 == pde & LARGE_PAGE_ADDRESS_MASK && (guest_pa
            & 0x000f_ffff_ffff_f000u64 == guest_pa ==> guest_pa <= 0xffff_ffff_ffe0_0000u64))
            by (bit_vector);
        assert forall|off: u64| off < 0x20_0000 implies #[trigger] resolve_view(
            v,
            (guest_pa + off) as u64,
        ) == Some((guest_pa + off) as u64) by {
            lemma_block_address(guest_pa, off);
            lemma_same_large_page_indices((guest_pa + off) as u64, guest_pa);
        }
        let w = split.view();
        assert(!entry_present(unmapped(w.pd[k]))) by {
            lemma_address_bits_absent(w.pd[k]);
        }
        lemma_large_entry(guest_pa);
    }

    /// Mapping the first `n` 4 KiB pages of a 2 MiB aligned guest block to
    /// themselves, starting from a table whose page-directory entry for the
    /// block is not present and whose page-table entries for it are not
    /// present either, keeps the links right and makes those pages
    /// resolve to themselves.
    pub proof fn lemma_pages_mapped_resolution(&self, v: NptView, guest_pa: u64, n: nat)
        requires
            self.wf(),
            view_wf(v),
            self.links_ok(v),
            n <= 512,
            guest_pa & 0x1f_ffffu64 == 0,
            split_range_ok(guest_pa),
            !entry_present(v.pd[pd_slot(guest_pa)]),
            forall|m: int|
                0 <= m < 512 ==> !entry_present(
                    #[trigger] pt_value(v.pt, (pd_slot(guest_pa) * 512 + m) as u64),
                ),
        ensures
            ({
                let w = self.pages_mapped(v, guest_pa, n);
                &&& view_wf(w)
                &&& self.links_ok(w)
                &&& forall|off: u64|
                    off < n * 0x1000 ==> #[trigger] resolve_view(w, (guest_pa + off) as u64) == Some(
                        (guest_pa + off) as u64,
                    )
                &&& forall|m: int|
                    n <= m < 512 ==> !entry_present(
                        #[trigger] pt_value(w.pt, (pd_slot(guest_pa) * 512 + m) as u64),
                    )
                &&& n > 0 ==> entry_present(w.pd[pd_slot(guest_pa)]) && !entry_large(
                    w.pd[pd_slot(guest_pa)],
                )
                &&& n == 0 ==> !entry_present(w.pd[pd_slot(guest_pa)])
            }),
        decreases n,
    {
        lemma_index_bounds(guest_pa);
        if n > 0 {
            self.lemma_pages_mapped_resolution(v, guest_pa, (n - 1) as nat);
            let w0 = self.pages_mapped(v, guest_pa, (n - 1) as nat);
            let page = (guest_pa + (n - 1) * 0x1000) as u64;
            let off0 = ((n - 1) * 0x1000) as u64;
            lemma_block_address(guest_pa, off0);
            assert(off0 / 4096 == n - 1);
            assert(page == (guest_pa + (off0 / 4096) * 4096) as u64);
            assert(entry_address_ok(page)) by {
                assert(guest_pa & 0x000f_ffff_ffff_f000u64 == guest_pa && off0 < 0x20_0000 && off0
                    & 0xfffu64 == 0 && guest_pa + 0x1ff000 < 0x10_0000_0000_0000 ==> ((guest_pa
                    + off0) as u64) & 0x000f_ffff_ffff_f000u64 == (guest_pa + off0) as u64)
                    by (bit_vector);
                assert(off0 & 0xfffu64 == 0) by {
                    let nn = (n - 1) as u64;
                    assert(off0 == (nn * 0x1000) as u64);
                    assert(((nn * 0x1000) as u64) & 0xfffu64 == 0) by (bit_vector)
                        requires
                            nn < 512,
                    ;
                }
            }
            assert(!entry_present(
                pt_value(w0.pt, (pd_slot(guest_pa) * 512 + (n - 1)) as u64),
            ));
            self.lemma_map_4kb_resolution(w0, page, page);
            let w = self.mapped_4kb(w0, page, page);
            assert forall|off: u64| off < n * 0x1000 implies #[trigger] resolve_view(
                w,
                (guest_pa + off) as u64,
            ) == Some((guest_pa + off) as u64) by {
                lemma_block_address(guest_pa, off);
                if off < (n - 1) * 0x1000 {
                    assert(resolve_view(w0, (guest_pa + off) as u64) is Some);
                } else {
                    assert(off / 4096 == n - 1);
                }
            }
            assert forall|m: int| n <= m < 512 implies !entry_present(
                #[trigger] pt_value(w.pt, (pd_slot(guest_pa) * 512 + m) as u64),
            ) by {
                assert(pt_value(w.pt, (pd_slot(guest_pa) * 512 + m) as u64) == pt_value(
                    w0.pt,
                    (pd_slot(guest_pa) * 512 + m) as u64,
                ));
            }
            lemma_table_entries(self.pt_pas@[pd_slot(guest_pa)]);
        }
    }

    /// Mapping the first `n` 4 KiB pages of a 2 MiB aligned block whose
    /// page-directory entry is not present makes their page-table entries
    /// present, keeps every other page-table entry and every other
    /// page-directory entry, and links the block's page table.
    pub proof fn lemma_pages_mapped_keys(&self, v: NptView, guest_pa: u64, n: nat)
        requires
            self.wf(),
            view_wf(v),
            n <= 512,
            guest_pa & 0x1f_ffffu64 == 0,
            split_range_ok(guest_pa),
            !entry_present(v.pd[pd_slot(guest_pa)]),
        ensures
            ({
                let w = self.pages_mapped(v, guest_pa, n);
                let base = pd_slot(guest_pa) * 512;
                &&& view_wf(w)
                &&& forall|m: int|
                    0 <= m < n ==> entry_present(#[trigger] pt_value(w.pt, (base + m) as u64))
                &&& forall|key: u64|
                    !(base <= key < base + n) ==> #[trigger] pt_value(w.pt, key) == pt_value(
                        v.pt,
                        key,
                    )
                &&& forall|s: int| 0 <= s < 262144 && s != pd_slot(guest_pa) ==> #[trigger] w.pd[s] == v.pd[s]
                &&& n > 0 ==> !entry_large(w.pd[pd_slot(guest_pa)])
                &&& n == 0 ==> w.pd[pd_slot(guest_pa)] == v.pd[pd_slot(guest_pa)]
            }),
        decreases n,
    {
        lemma_index_bounds(guest_pa);
        if n > 0 {
            self.lemma_pages_mapped_keys(v, guest_pa, (n - 1) as nat);
            let w0 = self.pages_mapped(v, guest_pa, (n - 1) as nat);
            let off0 = ((n - 1) * 0x1000) as u64;
            let page = (guest_pa + (n - 1) * 0x1000) as u64;
            lemma_block_address(guest_pa, off0);
            assert(off0 / 4096 == n - 1);
            assert(page == (guest_pa + (off0 / 4096) * 4096) as u64);
            assert(entry_address_ok(page)) by {
                let nn = (n - 1) as u64;
                assert(off0 == (nn * 0x1000) as u64);
                assert(guest_pa & 0x000f_ffff_ffff_f000u64 == guest_pa && nn < 512 && guest_pa
                    + 0x1ff000 < 0x10_0000_0000_0000 ==> ((guest_pa + (nn * 0x1000) as u64) as u64)
                    & 0x000f_ffff_ffff_f000u64 == (guest_pa + (nn * 0x1000) as u64) as u64)
                    by (bit_vector);
            }
            lemma_table_entries(self.pt_pas@[pd_slot(guest_pa)]);
            lemma_table_entries(page);
            let w = self.mapped_4kb(w0, page, page);
            assert(pt_key(page) == pd_slot(guest_pa) * 512 + (n - 1));
            assert(pd_slot(page) == pd_slot(guest_pa));
            assert(entry_present(pt_value(w.pt, pt_key(page))));
            assert forall|m: int| 0 <= m < n implies entry_present(
                #[trigger] pt_value(w.pt, (pd_slot(guest_pa) * 512 + m) as u64),
            ) by {
                if m < n - 1 {
                    assert(entry_present(pt_value(w0.pt, (pd_slot(guest_pa) * 512 + m) as u64)));
                }
            }
            let base = pd_slot(guest_pa) * 512;
            assert forall|key: u64| !(base <= key < base + n) implies #[trigger] pt_value(w.pt, key)
                == pt_value(v.pt, key) by {
                assert(key != pt_key(page));
                assert(pt_value(w0.pt, key) == pt_value(v.pt, key));
            }
            assert(view_wf(w));
            assert(!entry_large(w.pd[pd_slot(guest_pa)]));
            assert forall|s: int| 0 <= s < 262144 && s != pd_slot(guest_pa) implies #[trigger] w.pd[s]
                == v.pd[s] by {
                assert(w0.pd[s] == v.pd[s]);
            }
        }
    }

    /// Splitting a 2 MiB aligned block keeps every block covered when every
    /// block was, and afterwards all page-table entries of the block are
    /// present.
    pub proof fn lemma_split_covered(&self, v: NptView, guest_pa: u64)
        requires
            self.wf(),
            view_wf(v),
            all_blocks_covered(v),
            guest_pa & 0x1f_ffffu64 == 0,
            split_range_ok(guest_pa),
        ensures
            view_wf(self.split_view(v, guest_pa)),
            all_blocks_covered(self.split_view(v, guest_pa)),
            forall|m: int|
                0 <= m < 512 ==> entry_present(
                    #[trigger] pt_value(
                        self.split_view(v, guest_pa).pt,
                        (pd_slot(guest_pa) * 512 + m) as u64,
                    ),
                ),
    {
        let k = pd_slot(guest_pa);
        lemma_index_bounds(guest_pa);
        let v1 = NptView { pd: v.pd.update(k, unmapped(v.pd[k])), ..v };
        let e = v.pd[k];
        assert(!entry_present(unmapped(e))) by {
            lemma_address_bits_absent(e);
        }
        self.lemma_pages_mapped_keys(v1, guest_pa, 512);
        let w = self.split_view(v, guest_pa);
        assert forall|s: int| 0 <= s < 262144 implies entry_large(#[trigger] w.pd[s]) || forall|m: int|
            0 <= m < 512 ==> entry_present(#[trigger] pt_value(w.pt, (s * 512 + m) as u64)) by {
            if s != k && !entry_large(w.pd[s]) {
                assert(w.pd[s] == v.pd[s]);
                assert forall|m: int| 0 <= m < 512 implies entry_present(
                    #[trigger] pt_value(w.pt, (s * 512 + m) as u64),
                ) by {
                    assert(entry_present(pt_value(v.pt, (s * 512 + m) as u64)));
                    assert(!(k * 512 <= s * 512 + m < k * 512 + 512));
                }
            }
        }
    }

    /// Splitting a 2 MiB aligned guest block whose page-table entries are
    /// not present keeps the links right and makes every address of the
    /// block resolve to itself through 4 KiB pages.
    pub proof fn lemma_split_resolution(&self, guest_pa: u64)
        requires
            self.wf(),
            self.links_ok(self.view()),
            guest_pa & 0x1f_ffffu64 == 0,
            split_range_ok(guest_pa),
            forall|m: int|
                0 <= m < 512 ==> !entry_present(
                    #[trigger] pt_value(self.view().pt, (pd_slot(guest_pa) * 512 + m) as u64),
                ),
        ensures
            self.links_ok(self.split_view(self.view(), guest_pa)),
            forall|off: u64|
                off < 0x20_0000 ==> #[trigger] resolve_view(
                    self.split_view(self.view(), guest_pa),
                    (guest_pa + off) as u64,
                ) == Some((guest_pa + off) as u64),
    {
        let v = self.view();
        let k = pd_slot(guest_pa);
        lemma_index_bounds(guest_pa);
        let v1 = NptView { pd: v.pd.update(k, unmapped(v.pd[k])), ..v };
        let e = v.pd[k];
        assert(!entry_present(unmapped(e))) by {
            lemma_address_bits_absent(e);
        }
        assert(self.links_ok(v1));
        self.lemma_pages_mapped_resolution(v1, guest_pa, 512);
    }

    /// Changing the permission of a mapped page keeps the links right and
    /// every resolution outside that page; afterwards the page resolves
    /// into `host_pa` and its entry is executable exactly for
    /// `ReadWriteExecute`.
    pub proof fn lemma_change_page_permission_resolution(
        &self,
        guest_pa: u64,
        host_pa: u64,
        access: AccessType,
    )
        requires
            self.wf(),
            self.links_ok(self.view()),
            entry_address_ok(host_pa),
            resolve_view(self.view(), guest_pa) is Some,
        ensures
            ({
                let v = self.view();
                let w = permission_changed_view(v, guest_pa, host_pa, access);
                let k = pd_slot(guest_pa);
                &&& self.links_ok(w)
                &&& entry_large(v.pd[k]) ==> {
                    &&& entry_fetch_disabled(w.pd[k]) == (access == AccessType::ReadWrite)
                    &&& forall|a: u64|
                        pml4_index_spec(a) == pml4_index_spec(guest_pa) && pd_slot(a) == k
                            ==> #[trigger] resolve_view(w, a) == Some(
                            (host_pa & LARGE_PAGE_ADDRESS_MASK) | (a & 0x1f_ffffu64),
                        )
                    &&& forall|a: u64|
                        pd_slot(a) != k ==> #[trigger] resolve_view(w, a) == resolve_view(v, a)
                }
                &&& !entry_large(v.pd[k]) ==> {
                    &&& entry_fetch_disabled(pt_value(w.pt, pt_key(guest_pa))) == (access
                        == AccessType::ReadWrite)
                    &&& forall|a: u64|
                        pml4_index_spec(a) == pml4_index_spec(guest_pa) && pt_key(a) == pt_key(
                            guest_pa,
                        ) ==> #[trigger] resolve_view(w, a) == Some(host_pa | (a & 0xfffu64))
                    &&& forall|a: u64|
                        pt_key(a) != pt_key(guest_pa) ==> #[trigger] resolve_view(w, a)
                            == resolve_view(v, a)
                }
            }),
    {
        let v = self.view();
        let k = pd_slot(guest_pa);
        let key = pt_key(guest_pa);
        lemma_index_bounds(guest_pa);
        let w = permission_changed_view(v, guest_pa, host_pa, access);
        if entry_large(v.pd[k]) {
            lemma_access_entry(host_pa, v.pd[k], access);
            assert forall|a: u64|
                pml4_index_spec(a) == pml4_index_spec(guest_pa) && pd_slot(a) == k
                    implies #[trigger] resolve_view(w, a) == Some(
                    (host_pa & LARGE_PAGE_ADDRESS_MASK) | (a & 0x1f_ffffu64),
                ) by {
                lemma_index_bounds(a);
                lemma_same_large_page_indices(a, guest_pa);
            }
            assert forall|a: u64| pd_slot(a) != k implies #[trigger] resolve_view(w, a)
                == resolve_view(v, a) by {
                lemma_index_bounds(a);
            }
        } else {
            lemma_access_entry(host_pa, pt_value(v.pt, key), access);
            assert forall|a: u64|
                pml4_index_spec(a) == pml4_index_spec(guest_pa) && pt_key(a) == key
                    implies #[trigger] resolve_view(w, a) == Some(host_pa | (a & 0xfffu64)) by {
                lemma_index_bounds(a);
                lemma_same_page_indices(a, guest_pa);
            }
            assert forall|a: u64| pt_key(a) != key implies #[trigger] resolve_view(w, a)
                == resolve_view(v, a) by {
                lemma_index_bounds(a);
            }
        }
    }

    /// After `change_permission_single_page(guest_pa, access)` the page's
    /// PDPT and page-directory entries are present and executable, its
    /// page-table entry is present and executable exactly for
    /// `ReadWriteExecute`, and every other entry the call went over (PDPT
    /// entries up to `last`, the page's page directory and page table) is
    /// executable exactly when the page is not; all of them keep their
    /// addresses.
    pub proof fn lemma_single_page_permissions(v: NptView, guest_pa: u64, access: AccessType, last: int)
        requires
            view_wf(v),
            0 <= last < 512,
        ensures
            ({
                let w = Self::single_page_view(v, guest_pa, access, last);
                let l3 = pdpt_index_spec(guest_pa) as int;
                let k = pd_slot(guest_pa);
                let key = pt_key(guest_pa);
                &&& entry_present(w.pdpt[l3]) && !entry_fetch_disabled(w.pdpt[l3])
                &&& entry_present(w.pd[k]) && !entry_fetch_disabled(w.pd[k])
                &&& entry_present(pt_value(w.pt, key)) && entry_fetch_disabled(pt_value(w.pt, key))
                    == (access == AccessType::ReadWrite)
                &&& forall|i: int|
                    0 <= i <= last && i != l3 ==> entry_fetch_disabled(#[trigger] w.pdpt[i]) == (
                    access != AccessType::ReadWrite) && entry_address(w.pdpt[i]) == entry_address(
                        v.pdpt[i],
                    )
                &&& forall|j: int|
                    l3 * 512 <= j < l3 * 512 + 512 && j != k ==> entry_fetch_disabled(
                        #[trigger] w.pd[j],
                    ) == (access != AccessType::ReadWrite) && entry_address(w.pd[j])
                        == entry_address(v.pd[j])
                &&& forall|kk: u64|
                    k * 512 <= kk < k * 512 + 512 && kk != key ==> entry_fetch_disabled(
                        #[trigger] pt_value(w.pt, kk),
                    ) == (access != AccessType::ReadWrite) && entry_address(pt_value(w.pt, kk))
                        == entry_address(pt_value(v.pt, kk))
            }),
    {
        let l3 = pdpt_index_spec(guest_pa) as int;
        let k = pd_slot(guest_pa);
        let key = pt_key(guest_pa);
        lemma_index_bounds(guest_pa);
        let w = Self::single_page_view(v, guest_pa, access, last);
        let other = other_access(access);
        assert(other == AccessType::ReadWrite <==> access != AccessType::ReadWrite);
        assert forall|e: u64| true implies entry_fetch_disabled(#[trigger] other_step_pdpt(e, access))
            == (access != AccessType::ReadWrite) && entry_address(other_step_pdpt(e, access))
            == entry_address(e) by {
            lemma_relabel(e, other);
        }
        assert forall|e: u64| true implies entry_fetch_disabled(#[trigger] other_step_pd(e, access))
            == (access != AccessType::ReadWrite) && entry_address(other_step_pd(e, access))
            == entry_address(e) by {
            lemma_relabel(e, other);
        }
        assert forall|e: u64| true implies entry_fetch_disabled(#[trigger] other_step_pt(e, access))
            == (access != AccessType::ReadWrite) && entry_address(other_step_pt(e, access))
            == entry_address(e) by {
            lemma_relabel(e, other);
        }
        let pt1 = pt_block_stepped(v.pt, k * 512, 512, access);
        lemma_relabel(Seq::new(
            512,
            |i: int|
                if i <= last {
                    other_step_pdpt(v.pdpt[i], access)
                } else {
                    v.pdpt[i]
                },
        )[l3], AccessType::ReadWriteExecute);
        lemma_relabel(Seq::new(
            262144,
            |j: int|
                if l3 * 512 <= j < l3 * 512 + 512 {
                    other_step_pd(v.pd[j], access)
                } else {
                    v.pd[j]
                },
        )[k], AccessType::ReadWriteExecute);
        lemma_relabel(pt_value(pt1, key), access);
        assert forall|kk: u64| k * 512 <= kk < k * 512 + 512 && kk != key implies entry_fetch_disabled(
            #[trigger] pt_value(w.pt, kk),
        ) == (access != AccessType::ReadWrite) && entry_address(pt_value(w.pt, kk)) == entry_address(
            pt_value(v.pt, kk),
        ) by {
            assert(pt_value(w.pt, kk) == other_step_pt(pt_value(v.pt, kk), access));
        }
    }

    /// The identity map of the first 512 GiB with 2 MiB pages: PML4 entry 0
    /// links the page-directory-pointer table, which links all 512 page
    /// directories, whose entry `k` maps the 2 MiB page at `k * 2 MiB`.
    pub open spec fn identity_large_view(&self) -> NptView {
        NptView {
            pml4: Seq::new(
                512,
                |i: int|
                    if i == 0 {
                        pml4_entry_spec(self.pdpt_pa, TABLE_FLAGS)
                    } else {
                        0u64
                    },
            ),
            pdpt: Seq::new(512, |i: int| pdpt_entry_spec(self.pd_pas@[i], TABLE_FLAGS)),
            pd: Seq::new(262144, |k: int| pd_entry_spec((k * 0x20_0000) as u64, LARGE_PAGE_FLAGS)),
            pt: Map::empty(),
        }
    }

    /// The identity map of the first 512 GiB with 4 KiB pages: PML4 entry 0
    /// links the page-directory-pointer table, which links all 512 page
    /// directories, whose entries link all page tables, whose entries map
    /// the 4 KiB page `key` at `key * 4 KiB`.
    pub open spec fn identity_base_view(&self) -> NptView {
        NptView {
            pml4: Seq::new(
                512,
                |i: int|
                    if i == 0 {
                        pml4_entry_spec(self.pdpt_pa, TABLE_FLAGS)
                    } else {
                        0u64
                    },
            ),
            pdpt: Seq::new(512, |i: int| pdpt_entry_spec(self.pd_pas@[i], TABLE_FLAGS)),
            pd: Seq::new(262144, |k: int| pd_entry_spec(self.pt_pas@[k], TABLE_FLAGS)),
            pt: Map::new(
                |key: u64| key < 134217728,
                |key: u64| pt_entry_spec((key * 0x1000) as u64, TABLE_FLAGS),
            ),
        }
    }

    /// The 2 MiB identity map resolves every guest physical address below
    /// 512 GiB to the same host physical address.
    pub proof fn lemma_identity_large_resolution(&self)
        requires
            self.wf(),
            self.view() == self.identity_large_view(),
        ensures
            self.links_ok(self.view()),
            forall|g: u64| g < 0x80_0000_0000 ==> #[trigger] self.resolve(g) == Some(g),
    {
        let v = self.view();
        lemma_table_entries(self.pdpt_pa);
        lemma_zero_entry_absent();
        assert forall|i: int| 0 <= i < 512 implies entry_present(#[trigger] v.pdpt[i])
            && entry_address(v.pdpt[i]) == self.pd_pas@[i] by {
            lemma_table_entries(self.pd_pas@[i]);
        }
        assert forall|k: int| 0 <= k < 262144 implies entry_present(#[trigger] v.pd[k])
            && entry_large(v.pd[k]) && v.pd[k] & LARGE_PAGE_ADDRESS_MASK == (k * 0x20_0000) as u64 by {
            lemma_large_page_indices(k as u64);
            lemma_large_entry((k * 0x20_0000) as u64);
        }
        assert forall|g: u64| g < 0x80_0000_0000 implies #[trigger] self.resolve(g) == Some(g) by {
            lemma_split_address(g);
            lemma_index_bounds(g);
        }
    }

    /// The 4 KiB identity map resolves every guest physical address below
    /// 512 GiB to the same host physical address.
    pub proof fn lemma_identity_base_resolution(&self)
        requires
            self.wf(),
            self.view() == self.identity_base_view(),
        ensures
            self.links_ok(self.view()),
            forall|g: u64| g < 0x80_0000_0000 ==> #[trigger] self.resolve(g) == Some(g),
    {
        let v = self.view();
        lemma_table_entries(self.pdpt_pa);
        lemma_zero_entry_absent();
        assert forall|i: int| 0 <= i < 512 implies entry_present(#[trigger] v.pdpt[i])
            && entry_address(v.pdpt[i]) == self.pd_pas@[i] by {
            lemma_table_entries(self.pd_pas@[i]);
        }
        assert forall|k: int| 0 <= k < 262144 implies entry_present(#[trigger] v.pd[k])
            && !entry_large(v.pd[k]) && entry_address(v.pd[k]) == self.pt_pas@[k] by {
            lemma_table_entries(self.pt_pas@[k]);
        }
        assert forall|g: u64| g < 0x80_0000_0000 implies #[trigger] self.resolve(g) == Some(g) by {
            lemma_split_address(g);
            lemma_index_bounds(g);
            lemma_base_page_indices(g / 0x1000);
            lemma_table_entries(((g / 0x1000) * 0x1000) as u64);
        }
    }

    /// Builds the identity map of the first 512 GiB with 2 MiB pages, one
    /// `map_2mb(pa, pa)` for each page.
    pub fn identity_2mb(addresses: TableAddresses) -> (r: Self)
        requires
            addresses.wf(),
        ensures
            r.wf(),
            r.has_addresses(&addresses),
            r.view() == r.identity_large_view(),
    {
        let mut npt = Self::new(addresses);
        let ghost start = npt;
        let mut pa: u64 = 0;
        let mut i: u64 = 0;
        proof {
            lemma_table_entries(npt.pdpt_pa);
        }
        while pa < 0x80_0000_0000
            invariant
                npt.wf(),
                npt.same_layout(&start),
                i <= 262144,
                pa == i * 0x20_0000,
                npt.pml4@[0] == if i > 0 {
                    pml4_entry_spec(npt.pdpt_pa, TABLE_FLAGS)
                } else {
                    0u64
                },
                forall|j: int| 1 <= j < 512 ==> #[trigger] npt.pml4@[j] == 0,
                forall|j: int|
                    0 <= j < 512 ==> #[trigger] npt.pdp_entries@[j] == if j * 512 < i {
                        pdpt_entry_spec(npt.pd_pas@[j], TABLE_FLAGS)
                    } else {
                        0u64
                    },
                forall|k: int|
                    0 <= k < 262144 ==> #[trigger] npt.pd_entries@[k] == if k < i {
                        pd_entry_spec((k * 0x20_0000) as u64, LARGE_PAGE_FLAGS)
                    } else {
                        0u64
                    },
                npt.pt_entries@ == Map::<u64, u64>::empty(),
            decreases 0x80_0000_0000 - pa,
        {
            proof {
                lemma_large_page_indices(i);
                lemma_table_entries(npt.pd_pas@[(i / 512) as int]);
                lemma_large_entry(pa);
                lemma_zero_entry_absent();
            }
            npt.map_2mb(pa, pa, AccessType::ReadWriteExecute);
            pa = pa + 0x20_0000;
            i = i + 1;
        }
        assert(npt.view() =~= npt.identity_large_view());
        npt
    }

    /// Creates the 2 MiB identity page table. Maps every guest physical
    /// address below 512 GiB to the same host physical address, writing
    /// every entry directly.
    pub fn identity(addresses: TableAddresses) -> (r: Self)
        requires
            addresses.wf(),
        ensures
            r.wf(),
            r.has_addresses(&addresses),
            r.view() == r.identity_large_view(),
    {
        let mut npt = Self::new(addresses);
        let ghost start = npt;
        let e = pml4_entry_new(npt.pdpt_pa, TABLE_FLAGS);
        npt.pml4.set(0, e);
        let mut i: usize = 0;
        while i < ENTRIES
            invariant
                npt.wf(),
                npt.same_layout(&start),
                i <= 512,
                npt.pml4@ == start.pml4@.update(0, pml4_entry_spec(npt.pdpt_pa, TABLE_FLAGS)),
                forall|j: int|
                    0 <= j < 512 ==> #[trigger] npt.pdp_entries@[j] == if j < i {
                        pdpt_entry_spec(npt.pd_pas@[j], TABLE_FLAGS)
                    } else {
                        0u64
                    },
                forall|k: int|
                    0 <= k < 262144 ==> #[trigger] npt.pd_entries@[k] == if k < i * 512 {
                        pd_entry_spec((k * 0x20_0000) as u64, LARGE_PAGE_FLAGS)
                    } else {
                        0u64
                    },
                npt.pt_entries@ == Map::<u64, u64>::empty(),
            decreases 512 - i,
        {
            let pd_pa = npt.pd_pas[i];
            let e = pdpt_entry_new(pd_pa, TABLE_FLAGS);
            npt.pdp_entries.set(i, e);
            let mut j: usize = 0;
            while j < ENTRIES
                invariant
                    npt.wf(),
                    npt.same_layout(&start),
                    i < 512,
                    j <= 512,
                    npt.pml4@ == start.pml4@.update(0, pml4_entry_spec(npt.pdpt_pa, TABLE_FLAGS)),
                    forall|jj: int|
                        0 <= jj < 512 ==> #[trigger] npt.pdp_entries@[jj] == if jj <= i {
                            pdpt_entry_spec(npt.pd_pas@[jj], TABLE_FLAGS)
                        } else {
                            0u64
                        },
                    forall|k: int|
                        0 <= k < 262144 ==> #[trigger] npt.pd_entries@[k] == if k < i * 512 + j {
                            pd_entry_spec((k * 0x20_0000) as u64, LARGE_PAGE_FLAGS)
                        } else {
                            0u64
                        },
                    npt.pt_entries@ == Map::<u64, u64>::empty(),
                decreases 512 - j,
            {
                let page = (i * ENTRIES + j) as u64;
                proof {
                    lemma_large_page_indices(page);
                }
                let pfn = (page << 21) & PFN_MASK;
                let e = pd_entry_new(pfn, LARGE_PAGE_FLAGS);
                npt.pd_entries.set(i * ENTRIES + j, e);
                j = j + 1;
            }
            i = i + 1;
        }
        assert(npt.view() =~= npt.identity_large_view());
        npt
    }

    /// Builds the identity map of the first 512 GiB with 4 KiB pages, one
    /// `map_4kb(pa, pa)` for each page.
    pub fn identity_4kb(addresses: TableAddresses) -> (r: Self)
        requires
            addresses.wf(),
        ensures
            r.wf(),
            r.has_addresses(&addresses),
            r.view() == r.identity_base_view(),
    {
        let mut npt = Self::new(addresses);
        let ghost start = npt;
        let mut pa: u64 = 0;
        let mut p: u64 = 0;
        proof {
            lemma_table_entries(npt.pdpt_pa);
        }
        while pa < 0x80_0000_0000
            invariant
                npt.wf(),
                npt.same_layout(&start),
                p <= 134217728,
                pa == p * 0x1000,
                npt.pml4@[0] == if p > 0 {
                    pml4_entry_spec(npt.pdpt_pa, TABLE_FLAGS)
                } else {
                    0u64
                },
                forall|j: int| 1 <= j < 512 ==> #[trigger] npt.pml4@[j] == 0,
                forall|j: int|
                    0 <= j < 512 ==> #[trigger] npt.pdp_entries@[j] == if j * 262144 < p {
                        pdpt_entry_spec(npt.pd_pas@[j], TABLE_FLAGS)
                    } else {
                        0u64
                    },
                forall|k: int|
                    0 <= k < 262144 ==> #[trigger] npt.pd_entries@[k] == if k * 512 < p {
                        pd_entry_spec(npt.pt_pas@[k], TABLE_FLAGS)
                    } else {
                        0u64
                    },
                npt.pt_entries@ == Map::new(
                    |key: u64| key < p,
                    |key: u64| pt_entry_spec((key * 0x1000) as u64, TABLE_FLAGS),
                ),
            decreases 0x80_0000_0000 - pa,
        {
            proof {
                lemma_base_page_indices(p);
                lemma_table_entries(npt.pd_pas@[(p / 262144) as int]);
                lemma_table_entries(npt.pt_pas@[(p / 512) as int]);
                lemma_table_entries(pa);
                lemma_zero_entry_absent();
            }
            npt.map_4kb(pa, pa, AccessType::ReadWriteExecute);
            proof {
                assert(npt.pt_entries@ =~= Map::new(
                    |key: u64| key < p + 1,
                    |key: u64| pt_entry_spec((key * 0x1000) as u64, TABLE_FLAGS),
                ));
            }
            pa = pa + 0x1000;
            p = p + 1;
        }
        assert(npt.view() =~= npt.identity_base_view());
        npt
    }

    /// The contents after mapping the first `n` of the 4 KiB pages from
    /// `guest_pa` on, each to itself.
    pub open spec fn pages_mapped(&self, v: NptView, guest_pa: u64, n: nat) -> NptView
        decreases n,
    {
        if n == 0 {
            v
        } else {
            let page = (guest_pa + (n - 1) * 0x1000) as u64;
            self.mapped_4kb(self.pages_mapped(v, guest_pa, (n - 1) as nat), page, page)
        }
    }

    /// Mapping pages depends on a table only through its physical addresses.
    pub proof fn lemma_pages_mapped_layout(&self, other: &Self, v: NptView, guest_pa: u64, n: nat)
        requires
            self.same_layout(other),
        ensures
            self.pages_mapped(v, guest_pa, n) == other.pages_mapped(v, guest_pa, n),
        decreases n,
    {
        if n > 0 {
            self.lemma_pages_mapped_layout(other, v, guest_pa, (n - 1) as nat);
            let page = (guest_pa + (n - 1) * 0x1000) as u64;
            let w = self.pages_mapped(v, guest_pa, (n - 1) as nat);
            assert(self.mapped_4kb(w, page, page) == other.mapped_4kb(w, page, page));
        }
    }

    /// The contents after `split_2mb_to_4kb(guest_pa)` on a table whose
    /// page-directory entry for `guest_pa` maps a large page: that entry is
    /// unmapped and the 512 pages from `guest_pa` on are mapped to
    /// themselves.
    pub open spec fn split_view(&self, v: NptView, guest_pa: u64) -> NptView {
        let k = pd_slot(guest_pa);
        self.pages_mapped(NptView { pd: v.pd.update(k, unmapped(v.pd[k])), ..v }, guest_pa, 512)
    }

    /// The contents after `join_4kb_to_2mb(guest_pa)` on a table whose
    /// page-directory entry for `guest_pa` does not map a large page: that
    /// entry is unmapped and `guest_pa` is mapped to itself as a 2 MiB page.
    pub open spec fn join_view(&self, v: NptView, guest_pa: u64) -> NptView {
        let k = pd_slot(guest_pa);
        self.mapped_2mb(NptView { pd: v.pd.update(k, unmapped(v.pd[k])), ..v }, guest_pa, guest_pa)
    }

    /// Clears the flags of a present page-directory entry, keeping its address.
    fn unmap_2mb(entry: &mut u64)
        ensures
            *final(entry) == unmapped(*old(entry)),
    {
        if !is_present(*entry) {
            return ;
        }
        *entry = address(*entry);
    }

    /// Clears the flags of a present page-directory entry, keeping its address.
    fn unmap_4kb(entry: &mut u64)
        ensures
            *final(entry) == unmapped(*old(entry)),
    {
        Self::unmap_2mb(entry);
    }

    /// Splits a large 2 MiB page into 512 smaller 4 KiB pages: the large
    /// page is unmapped and the 512 pages from `guest_pa` on are mapped to
    /// themselves. A page directory that is already split stays as it is.
    pub fn split_2mb_to_4kb(&mut self, guest_pa: u64) -> (r: Option<()>)
        requires
            old(self).wf(),
            entry_large(old(self).pd_entries@[pd_slot(guest_pa)]) ==> split_range_ok(guest_pa),
        ensures
            r == Some(()),
            final(self).wf(),
            final(self).same_layout(old(self)),
            final(self).view() == if entry_large(old(self).view().pd[pd_slot(guest_pa)]) {
                old(self).split_view(old(self).view(), guest_pa)
            } else {
                old(self).view()
            },
    {
        proof {
            lemma_index_bounds(guest_pa);
        }
        let l3 = pdpt_index_of(guest_pa);
        let l2 = pd_index_of(guest_pa);
        let k = l3 * ENTRIES + l2;
        if !is_page(self.pd_entries[k]) {
            return Some(());
        }
        let mut e = self.pd_entries[k];
        Self::unmap_2mb(&mut e);
        self.pd_entries.set(k, e);
        let ghost start = *self;
        let ghost v1 = self.view();
        let mut i: u64 = 0;
        while i < 512
            invariant
                self.wf(),
                self.same_layout(&start),
                start.wf(),
                split_range_ok(guest_pa),
                i <= 512,
                self.view() == start.pages_mapped(v1, guest_pa, i as nat),
            decreases 512 - i,
        {
            let address = guest_pa + i * 0x1000;
            assert(entry_address_ok(address)) by {
                assert(guest_pa & 0x000f_ffff_ffff_f000u64 == guest_pa && i < 512 && guest_pa
                    + 0x1ff000 < 0x10_0000_0000_0000 ==> ((guest_pa + i * 0x1000) as u64)
                    & 0x000f_ffff_ffff_f000u64 == (guest_pa + i * 0x1000) as u64) by (bit_vector);
            }
            self.map_4kb(address, address, AccessType::ReadWriteExecute);
            i = i + 1;
        }
        proof {
            let v0 = old(self).view();
            assert(v1 == (NptView { pd: v0.pd.update(k as int, unmapped(v0.pd[k as int])), ..v0 }));
            start.lemma_pages_mapped_layout(old(self), v1, guest_pa, 512);
        }
        Some(())
    }

    /// Joins the 4 KiB pages of a page directory entry into a 2 MiB page
    /// mapped to itself. An entry that already maps a large page stays as
    /// it is.
    pub fn join_4kb_to_2mb(&mut self, guest_pa: u64) -> (r: Option<()>)
        requires
            old(self).wf(),
            !entry_large(old(self).view().pd[pd_slot(guest_pa)]) ==> entry_address_ok(guest_pa),
        ensures
            r == Some(()),
            final(self).wf(),
            final(self).same_layout(old(self)),
            final(self).view() == if entry_large(old(self).view().pd[pd_slot(guest_pa)]) {
                old(self).view()
            } else {
                old(self).join_view(old(self).view(), guest_pa)
            },
    {
        proof {
            lemma_index_bounds(guest_pa);
        }
        let l3 = pdpt_index_of(guest_pa);
        let l2 = pd_index_of(guest_pa);
        let k = l3 * ENTRIES + l2;
        if is_page(self.pd_entries[k]) {
            return Some(());
        }
        let mut e = self.pd_entries[k];
        Self::unmap_4kb(&mut e);
        self.pd_entries.set(k, e);
        self.map_2mb(guest_pa, guest_pa, AccessType::ReadWriteExecute);
        Some(())
    }

    /// Changes the permission of a single page, 2 MiB or 4 KiB, and points
    /// it to `host_pa`.
    pub fn change_page_permission(&mut self, guest_pa: u64, host_pa: u64, permission: AccessType)
        requires
            old(self).wf(),
            entry_address_ok(host_pa),
            !entry_large(old(self).view().pd[pd_slot(guest_pa)]) ==> entry_present(
                pt_value(old(self).view().pt, pt_key(guest_pa)),
            ),
        ensures
            final(self).wf(),
            final(self).same_layout(old(self)),
            final(self).view() == permission_changed_view(old(self).view(), guest_pa, host_pa, permission),
    {
        proof {
            lemma_index_bounds(guest_pa);
        }
        let l3 = pdpt_index_of(guest_pa);
        let l2 = pd_index_of(guest_pa);
        let l1 = pt_index_of(guest_pa);
        let k = l3 * ENTRIES + l2;
        let pd_entry = self.pd_entries[k];
        if is_page(pd_entry) {
            let flags = permission.get_2mb(pd_entry & PD_FLAGS_MASK);
            let e = pd_entry_new(host_pa, flags);
            self.pd_entries.set(k, e);
        } else {
            let key: u64 = (k as u64) * 512 + (l1 as u64);
            let pt_entry: u64 = match self.pt_entries.get(&key) {
                Some(e) => *e,
                None => 0,
            };
            let flags = permission.get_4kb(pt_entry & PT_FLAGS_MASK);
            let e = pt_entry_new(host_pa, flags);
            self.pt_entries.insert(key, e);
        }
    }

    /// The contents after `change_permission_single_page(guest_pa, access)`
    /// with PDPT entries `0..=last` considered.
    pub open spec fn single_page_view(v: NptView, guest_pa: u64, access: AccessType, last: int) -> NptView {
        let l3 = pdpt_index_spec(guest_pa) as int;
        let k = pd_slot(guest_pa);
        let key = pt_key(guest_pa);
        let pdpt1 = Seq::new(
            512,
            |i: int|
                if i <= last {
                    other_step_pdpt(v.pdpt[i], access)
                } else {
                    v.pdpt[i]
                },
        );
        let pd1 = Seq::new(
            262144,
            |j: int|
                if l3 * 512 <= j < l3 * 512 + 512 {
                    other_step_pd(v.pd[j], access)
                } else {
                    v.pd[j]
                },
        );
        let pt1 = pt_block_stepped(v.pt, k * 512, 512, access);
        NptView {
            pml4: v.pml4,
            pdpt: pdpt1.update(l3, relabel_pdpt(pdpt1[l3], AccessType::ReadWriteExecute)),
            pd: pd1.update(k, relabel_pd(pd1[k], AccessType::ReadWriteExecute)),
            pt: pt1.insert(key, relabel_pt(pt_value(pt1, key), access)),
        }
    }

    /// The index of the last PDPT entry that covers physical memory, as
    /// one more than the whole gigabytes of memory.
    pub fn last_pdp_index(&self, desc: &PhysicalMemoryDescriptor) -> (r: usize)
        requires
            desc.wf(),
            desc.total_size_spec() <= usize::MAX,
        ensures
            r == desc.total_size_spec() / 0x4000_0000 + 1,
    {
        desc.total_size_in_gb() + 1
    }

    /// Changes the permissions of the PDPT entries `0..=last_pdp_index`.
    pub fn change_all_permissions(&mut self, permission: AccessType, desc: &PhysicalMemoryDescriptor) -> (r: Option<()>)
        requires
            old(self).wf(),
            desc.wf(),
            desc.total_size_spec() <= usize::MAX,
            desc.total_size_spec() / 0x4000_0000 + 1 < 512,
        ensures
            r == Some(()),
            final(self).wf(),
            final(self).same_layout(old(self)),
            final(self).view() == (NptView {
                pdpt: Seq::new(
                    512,
                    |i: int|
                        if i <= desc.total_size_spec() / 0x4000_0000 + 1 {
                            relabel_pdpt(old(self).view().pdpt[i], permission)
                        } else {
                            old(self).view().pdpt[i]
                        },
                ),
                ..old(self).view()
            }),
    {
        let last = self.last_pdp_index(desc);
        let ghost v0 = self.view();
        let ghost start = *self;
        let mut i: usize = 0;
        while i <= last
            invariant
                self.wf(),
                self.same_layout(&start),
                last < 512,
                i <= last + 1,
                self.view() == (NptView {
                    pdpt: Seq::new(
                        512,
                        |j: int|
                            if j < i {
                                relabel_pdpt(v0.pdpt[j], permission)
                            } else {
                                v0.pdpt[j]
                            },
                    ),
                    ..v0
                }),
            decreases last + 1 - i,
        {
            let e = self.pdp_entries[i];
            proof {
                lemma_entry_address_ok(e);
            }
            let flags = permission.get_1gb(e & PDPT_FLAGS_MASK);
            let entry = pdpt_entry_new(address(e), flags);
            self.pdp_entries.set(i, entry);
            i = i + 1;
            assert(self.view().pdpt =~= Seq::new(
                512,
                |j: int|
                    if j < i {
                        relabel_pdpt(v0.pdpt[j], permission)
                    } else {
                        v0.pdpt[j]
                    },
            ));
        }
        assert(self.view().pdpt =~= Seq::new(
            512,
            |j: int|
                if j <= last {
                    relabel_pdpt(v0.pdpt[j], permission)
                } else {
                    v0.pdpt[j]
                },
        ));
        Some(())
    }

    /// Gives one page the permission `page_permission` and all other pages
    /// the opposite one: the other pages get it on all three levels (the
    /// PDPT entries `0..=last_pdp_index`, the page directory of the page and
    /// its page table), the page itself in its page-table entry, while its
    /// PDPT and page-directory entries are made executable so that the
    /// page-table entries below them decide. An entry that is not executable
    /// is left alone when the other pages are not to be executable.
    pub fn change_permission_single_page(
        &mut self,
        guest_pa: u64,
        page_permission: AccessType,
        desc: &PhysicalMemoryDescriptor,
    )
        requires
            old(self).wf(),
            desc.wf(),
            desc.total_size_spec() <= usize::MAX,
            desc.total_size_spec() / 0x4000_0000 + 1 < 512,
        ensures
            final(self).wf(),
            final(self).same_layout(old(self)),
            final(self).view() == Self::single_page_view(
                old(self).view(),
                guest_pa,
                page_permission,
                (desc.total_size_spec() / 0x4000_0000 + 1) as int,
            ),
    {
        let other_permission = if page_permission == AccessType::ReadWrite {
            AccessType::ReadWriteExecute
        } else {
            AccessType::ReadWrite
        };
        let should_be_executable = other_permission == AccessType::ReadWriteExecute;
        proof {
            lemma_index_bounds(guest_pa);
        }
        let l3 = pdpt_index_of(guest_pa);
        let l2 = pd_index_of(guest_pa);
        let l1 = pt_index_of(guest_pa);
        let k = l3 * ENTRIES + l2;
        let key: u64 = (k as u64) * 512 + (l1 as u64);
        let last = self.last_pdp_index(desc);
        let ghost v0 = self.view();
        let ghost start = *self;

        // The PDPT entries (1 GiB).
        let mut i: usize = 0;
        while i <= last
            invariant
                self.wf(),
                self.same_layout(&start),
                last < 512,
                i <= last + 1,
                should_be_executable == (page_permission == AccessType::ReadWrite),
                other_permission == other_access(page_permission),
                self.view() == (NptView {
                    pdpt: Seq::new(
                        512,
                        |j: int|
                            if j < i {
                                other_step_pdpt(v0.pdpt[j], page_permission)
                            } else {
                                v0.pdpt[j]
                            },
                    ),
                    ..v0
                }),
            decreases last + 1 - i,
        {
            let e = self.pdp_entries[i];
            if !(is_instruction_fetching_disabled(e) && !should_be_executable) {
                proof {
                    lemma_entry_address_ok(e);
                }
                let flags = other_permission.get_1gb(e & PDPT_FLAGS_MASK);
                let entry = pdpt_entry_new(address(e), flags);
                self.pdp_entries.set(i, entry);
            }
            i = i + 1;
            assert(self.view().pdpt =~= Seq::new(
                512,
                |j: int|
                    if j < i {
                        other_step_pdpt(v0.pdpt[j], page_permission)
                    } else {
                        v0.pdpt[j]
                    },
            ));
        }
        let ghost pdpt1 = Seq::new(
            512,
            |j: int|
                if j <= last {
                    other_step_pdpt(v0.pdpt[j], page_permission)
                } else {
                    v0.pdpt[j]
                },
        );
        assert(self.view().pdpt =~= pdpt1);

        // The entries of the page directory of the page (2 MiB).
        let mut i: usize = 0;
        while i < ENTRIES
            invariant
                self.wf(),
                self.same_layout(&start),
                i <= 512,
                k == l3 * 512 + l2,
                l3 < 512,
                l2 < 512,
                should_be_executable == (page_permission == AccessType::ReadWrite),
                other_permission == other_access(page_permission),
                self.view() == (NptView {
                    pdpt: pdpt1,
                    pd: Seq::new(
                        262144,
                        |j: int|
                            if l3 * 512 <= j < l3 * 512 + i {
                                other_step_pd(v0.pd[j], page_permission)
                            } else {
                                v0.pd[j]
                            },
                    ),
                    ..v0
                }),
            decreases 512 - i,
        {
            let e = self.pd_entries[l3 * ENTRIES + i];
            if !(is_instruction_fetching_disabled(e) && !should_be_executable) {
                proof {
                    lemma_entry_address_ok(e);
                }
                let flags = other_permission.get_2mb(e & PD_FLAGS_MASK);
                let entry = pd_entry_new(address(e), flags);
                self.pd_entries.set(l3 * ENTRIES + i, entry);
            }
            i = i + 1;
            assert(self.view().pd =~= Seq::new(
                262144,
                |j: int|
                    if l3 * 512 <= j < l3 * 512 + i {
                        other_step_pd(v0.pd[j], page_permission)
                    } else {
                        v0.pd[j]
                    },
            ));
        }
        let ghost pd1 = Seq::new(
            262144,
            |j: int|
                if l3 * 512 <= j < l3 * 512 + 512 {
                    other_step_pd(v0.pd[j], page_permission)
                } else {
                    v0.pd[j]
                },
        );
        assert(self.view().pd =~= pd1);

        // The entries of the page table of the page (4 KiB).
        let base: u64 = (k as u64) * 512;
        let mut i: u64 = 0;
        while i < 512
            invariant
                self.wf(),
                self.same_layout(&start),
                i <= 512,
                base == k * 512,
                k < 262144,
                should_be_executable == (page_permission == AccessType::ReadWrite),
                other_permission == other_access(page_permission),
                self.view() == (NptView {
                    pdpt: pdpt1,
                    pd: pd1,
                    pt: pt_block_stepped(v0.pt, base as int, i as int, page_permission),
                    ..v0
                }),
            decreases 512 - i,
        {
            let kk = base + i;
            let e: u64 = match self.pt_entries.get(&kk) {
                Some(e) => *e,
                None => 0,
            };
            assert(e == pt_value(v0.pt, kk));
            let entry = if !(is_instruction_fetching_disabled(e) && !should_be_executable) {
                proof {
                    lemma_entry_address_ok(e);
                }
                let flags = other_permission.get_4kb(e & PT_FLAGS_MASK);
                pt_entry_new(address(e), flags)
            } else {
                e
            };
            self.pt_entries.insert(kk, entry);
            i = i + 1;
            assert(self.view().pt =~= pt_block_stepped(v0.pt, base as int, i as int, page_permission));
        }

        // The entries above the page stay executable, so that its page-table
        // entry and those of the pages beside it decide.
        let e = self.pdp_entries[l3];
        proof {
            lemma_entry_address_ok(e);
        }
        let flags = AccessType::ReadWriteExecute.get_1gb(e & PDPT_FLAGS_MASK);
        let entry = pdpt_entry_new(address(e), flags);
        self.pdp_entries.set(l3, entry);

        let e = self.pd_entries[k];
        proof {
            lemma_entry_address_ok(e);
        }
        let flags = AccessType::ReadWriteExecute.get_2mb(e & PD_FLAGS_MASK);
        let entry = pd_entry_new(address(e), flags);
        self.pd_entries.set(k, entry);

        // The page itself gets its own permission.
        let e: u64 = match self.pt_entries.get(&key) {
            Some(e) => *e,
            None => 0,
        };
        proof {
            lemma_entry_address_ok(e);
        }
        let flags = page_permission.get_4kb(e & PT_FLAGS_MASK);
        let entry = pt_entry_new(address(e), flags);
        self.pt_entries.insert(key, entry);
    }

    /// Maps the guest physical memory the descriptor covers to itself with
    /// 2 MiB pages.
    pub fn system(addresses: TableAddresses, desc: &PhysicalMemoryDescriptor) -> (r: Self)
        requires
            addresses.wf(),
            desc.wf(),
            desc.total_size_spec() <= usize::MAX,
            desc.total_size_spec() <= 0x80_0000_0000,
        ensures
            r.wf(),
            r.has_addresses(&addresses),
            forall|g: u64| g < desc.total_size_spec() ==> #[trigger] r.resolve(g) == Some(g),
    {
        let mut npt = Self::new(addresses);
        let ghost start = npt;
        let total = desc.total_size() as u64;
        let mut pa: u64 = 0;
        let mut i: u64 = 0;
        proof {
            lemma_table_entries(npt.pdpt_pa);
            lemma_zero_entry_absent();
        }
        while pa < total
            invariant
                npt.wf(),
                npt.same_layout(&start),
                total == desc.total_size_spec(),
                total <= 0x80_0000_0000,
                i <= 262144,
                pa == i * 0x20_0000,
                npt.pml4@[0] == if i > 0 {
                    pml4_entry_spec(npt.pdpt_pa, TABLE_FLAGS)
                } else {
                    0u64
                },
                forall|j: int| 1 <= j < 512 ==> #[trigger] npt.pml4@[j] == 0,
                forall|j: int|
                    0 <= j < 512 ==> #[trigger] npt.pdp_entries@[j] == if j * 512 < i {
                        pdpt_entry_spec(npt.pd_pas@[j], TABLE_FLAGS)
                    } else {
                        0u64
                    },
                forall|k: int|
                    0 <= k < 262144 ==> #[trigger] npt.pd_entries@[k] == if k < i {
                        pd_entry_spec((k * 0x20_0000) as u64, LARGE_PAGE_FLAGS)
                    } else {
                        0u64
                    },
                npt.pt_entries@ == Map::<u64, u64>::empty(),
            decreases 262144 - i,
        {
            proof {
                lemma_large_page_indices(i);
                lemma_table_entries(npt.pd_pas@[(i / 512) as int]);
                lemma_large_entry(pa);
                lemma_zero_entry_absent();
            }
            npt.map_2mb(pa, pa, AccessType::ReadWriteExecute);
            pa = pa + 0x20_0000;
            i = i + 1;
        }
        proof {
            let v = npt.view();
            lemma_zero_entry_absent();
            assert forall|g: u64| g < total implies #[trigger] npt.resolve(g) == Some(g) by {
                lemma_split_address(g);
                lemma_index_bounds(g);
                let k = g / 0x20_0000;
                assert(k < i);
                lemma_large_page_indices(k);
                lemma_large_entry((k * 0x20_0000) as u64);
                lemma_table_entries(npt.pd_pas@[pdpt_index_spec(g) as int]);
                assert(pdpt_index_spec(g) * 512 <= k);
            }
        }
        npt
    }

    /// An empty table at the given physical addresses: every entry is zero.
    pub fn new(addresses: TableAddresses) -> (r: Self)
        requires
            addresses.wf(),
        ensures
            r.wf(),
            r.has_addresses(&addresses),
            forall|i: int| 0 <= i < 512 ==> #[trigger] r.pml4@[i] == 0,
            forall|i: int| 0 <= i < 512 ==> #[trigger] r.pdp_entries@[i] == 0,
            forall|i: int| 0 <= i < 262144 ==> #[trigger] r.pd_entries@[i] == 0,
            r.pt_entries@ == Map::<u64, u64>::empty(),
    {
        NestedPageTable {
            pml4: vec![0u64; ENTRIES],
            pdp_entries: vec![0u64; ENTRIES],
            pd_entries: vec![0u64; PD_ENTRY_COUNT],
            pt_entries: HashMap::new(),
            pml4_pa: addresses.pml4_pa,
            pdpt_pa: addresses.pdpt_pa,
            pd_pas: addresses.pd_pas,
            pt_pas: addresses.pt_pas,
        }
    }

    /// Maps the 2 MiB guest page of `guest_pa` to `host_pa`, creating the
    /// missing table links. A level whose entry is already present is kept.
    pub fn map_2mb(&mut self, guest_pa: u64, host_pa: u64, access_type: AccessType)
        requires
            old(self).wf(),
            !entry_present(old(self).view().pd[pd_slot(guest_pa)]) ==> entry_address_ok(host_pa),
        ensures
            final(self).wf(),
            final(self).same_layout(old(self)),
            final(self).view() == old(self).mapped_2mb(old(self).view(), guest_pa, host_pa),
    {
        let _ = access_type;
        proof {
            lemma_index_bounds(guest_pa);
        }
        let l4 = pml4_index_of(guest_pa);
        if !is_present(self.pml4[l4]) {
            let e = pml4_entry_new(self.pdpt_pa, TABLE_FLAGS);
            self.pml4.set(l4, e);
        }
        let l3 = pdpt_index_of(guest_pa);
        if !is_present(self.pdp_entries[l3]) {
            let e = pdpt_entry_new(self.pd_pas[l3], TABLE_FLAGS);
            self.pdp_entries.set(l3, e);
        }
        let l2 = pd_index_of(guest_pa);
        let k = l3 * ENTRIES + l2;
        if !is_present(self.pd_entries[k]) {
            let e = pd_entry_new(host_pa, LARGE_PAGE_FLAGS);
            self.pd_entries.set(k, e);
        }
    }

    /// Maps the 4 KiB guest page of `guest_pa` to `host_pa`, creating the
    /// missing table links. A level whose entry is already present is kept.
    pub fn map_4kb(&mut self, guest_pa: u64, host_pa: u64, access_type: AccessType)
        requires
            old(self).wf(),
            !entry_present(pt_value(old(self).view().pt, pt_key(guest_pa))) ==> entry_address_ok(
                host_pa,
            ),
        ensures
            final(self).wf(),
            final(self).same_layout(old(self)),
            final(self).view() == old(self).mapped_4kb(old(self).view(), guest_pa, host_pa),
    {
        let _ = access_type;
        proof {
            lemma_index_bounds(guest_pa);
        }
        let l4 = pml4_index_of(guest_pa);
        if !is_present(self.pml4[l4]) {
            let e = pml4_entry_new(self.pdpt_pa, TABLE_FLAGS);
            self.pml4.set(l4, e);
        }
        let l3 = pdpt_index_of(guest_pa);
        if !is_present(self.pdp_entries[l3]) {
            let e = pdpt_entry_new(self.pd_pas[l3], TABLE_FLAGS);
            self.pdp_entries.set(l3, e);
        }
        let l2 = pd_index_of(guest_pa);
        let k = l3 * ENTRIES + l2;
        if !is_present(self.pd_entries[k]) {
            let e = pd_entry_new(self.pt_pas[k], TABLE_FLAGS);
            self.pd_entries.set(k, e);
        }
        let l1 = pt_index_of(guest_pa);
        let key: u64 = (k as u64) * 512 + (l1 as u64);
        let current: u64 = match self.pt_entries.get(&key) {
            Some(e) => *e,
            None => 0,
        };
        if !is_present(current) {
            let e = pt_entry_new(host_pa, TABLE_FLAGS);
            self.pt_entries.insert(key, e);
        }
    }
}

} // verus!
