//! Paging constants, page-table entry bits and access types.
use vstd::prelude::*;
use x86::bits64::paging::{
    pd_index, pdpt_index, pml4_index, pt_index, PAddr, PDEntry, PDFlags, PDPTEntry, PDPTFlags,
    PML4Entry, PML4Flags, PTEntry, PTFlags, VAddr,
};

verus! {

pub const _512GB: u64 = 0x80_0000_0000;
pub const _1GB: u64 = 0x4000_0000;
pub const _2MB: usize = 0x20_0000;
pub const _4KB: usize = 0x1000;

pub const PAGE_SHIFT: u64 = 12;
pub const PAGE_SIZE: usize = 0x1000;
pub const PAGE_MASK: usize = !0xfffusize;
/// Bits 12 to 51: the page frame part of a physical address.
pub const PFN_MASK: u64 = 0x000f_ffff_ffff_f000;

/// Present.
pub const ENTRY_P: u64 = 0x1;
/// Read/write.
pub const ENTRY_RW: u64 = 0x2;
/// User/supervisor.
pub const ENTRY_US: u64 = 0x4;
/// Page size: the entry maps a large page.
pub const ENTRY_PS: u64 = 0x80;
/// Execute disable.
pub const ENTRY_XD: u64 = 0x8000_0000_0000_0000;

/// The bits of an entry that hold the physical address it refers to.
pub const ADDRESS_MASK: u64 = 0x000f_ffff_ffff_f000;
/// The flag bits a PML4 entry knows: P, RW, US, PWT, PCD, A, the three
/// bits left to software and XD.
pub const PML4_FLAGS_MASK: u64 = 0x8000_0000_0000_0e3f;
/// The flag bits a PDPT entry knows: bits 0 to 12 and XD.
pub const PDPT_FLAGS_MASK: u64 = 0x8000_0000_0000_1fff;
/// The flag bits a page-directory entry knows: bits 0 to 12 and XD.
pub const PD_FLAGS_MASK: u64 = 0x8000_0000_0000_1fff;
/// The flag bits a page-table entry knows: bits 0 to 6, 8 to 11 and XD.
pub const PT_FLAGS_MASK: u64 = 0x8000_0000_0000_0f7f;

/// Present, writable and user accessible: the flags of every table link.
pub const TABLE_FLAGS: u64 = 0x7;
/// Present, writable, user accessible and large: the flags of a 2 MiB page.
pub const LARGE_PAGE_FLAGS: u64 = 0x87;

#[derive(Debug, Clone, Copy, PartialEq, Eq, Structural)]
pub enum AccessType {
    ReadWrite,
    ReadWriteExecute,
}

pub open spec fn pml4_index_spec(addr: u64) -> u64 {
    (addr >> 39u64) & 0x1ffu64
}

pub open spec fn pdpt_index_spec(addr: u64) -> u64 {
    (addr >> 30u64) & 0x1ffu64
}

pub open spec fn pd_index_spec(addr: u64) -> u64 {
    (addr >> 21u64) & 0x1ffu64
}

pub open spec fn pt_index_spec(addr: u64) -> u64 {
    (addr >> 12u64) & 0x1ffu64
}

pub open spec fn entry_present(e: u64) -> bool {
    e & ENTRY_P != 0
}

pub open spec fn entry_large(e: u64) -> bool {
    e & ENTRY_PS != 0
}

pub open spec fn entry_fetch_disabled(e: u64) -> bool {
    e & ENTRY_XD != 0
}

pub open spec fn entry_address(e: u64) -> u64 {
    e & ADDRESS_MASK
}

/// An address that an entry can hold: 4 KiB aligned and below 2^52.
pub open spec fn entry_address_ok(pa: u64) -> bool {
    pa & ADDRESS_MASK == pa
}

pub open spec fn pml4_entry_spec(pa: u64, flags: u64) -> u64 {
    pa | (flags & PML4_FLAGS_MASK)
}

pub open spec fn pdpt_entry_spec(pa: u64, flags: u64) -> u64 {
    pa | (flags & PDPT_FLAGS_MASK)
}

pub open spec fn pd_entry_spec(pa: u64, flags: u64) -> u64 {
    pa | (flags & PD_FLAGS_MASK)
}

pub open spec fn pt_entry_spec(pa: u64, flags: u64) -> u64 {
    pa | (flags & PT_FLAGS_MASK)
}

/// The flags an entry gets for an access type: it is made present, writable
/// and user accessible, and execution is disabled for `ReadWrite` and
/// allowed for `ReadWriteExecute`. Other flags are kept.
pub open spec fn access_flags(access: AccessType, flags: u64) -> u64 {
    match access {
        AccessType::ReadWrite => flags | TABLE_FLAGS | ENTRY_XD,
        AccessType::ReadWriteExecute => (flags | TABLE_FLAGS) & !ENTRY_XD,
    }
}

/// An entry given the flags of an access type, at any level and whatever
/// its address and old flags, is present, writable and user accessible
/// (its low three bits are set), and, made from an address an entry can
/// hold, its instruction fetches are disabled exactly for `ReadWrite`.
pub proof fn lemma_access_flags_permissions(access: AccessType, pa: u64, flags: u64)
    ensures
        access_flags(access, flags) & 7u64 == 7u64,
        (access_flags(access, flags) & ENTRY_XD != 0) == (access == AccessType::ReadWrite),
        pdpt_entry_spec(pa, access_flags(access, flags & PDPT_FLAGS_MASK)) & 7u64 == 7u64,
        entry_address_ok(pa) ==> entry_fetch_disabled(
            pdpt_entry_spec(pa, access_flags(access, flags & PDPT_FLAGS_MASK)),
        ) == (access == AccessType::ReadWrite),
        pd_entry_spec(pa, access_flags(access, flags & PD_FLAGS_MASK)) & 7u64 == 7u64,
        entry_address_ok(pa) ==> entry_fetch_disabled(
            pd_entry_spec(pa, access_flags(access, flags & PD_FLAGS_MASK)),
        ) == (access == AccessType::ReadWrite),
        pt_entry_spec(pa, access_flags(access, flags & PT_FLAGS_MASK)) & 7u64 == 7u64,
        entry_address_ok(pa) ==> entry_fetch_disabled(
            pt_entry_spec(pa, access_flags(access, flags & PT_FLAGS_MASK)),
        ) == (access == AccessType::ReadWrite),
{
    assert({
        &&& (flags | 7u64 | 0x8000_0000_0000_0000u64) & 7u64 == 7u64
        &&& (flags | 7u64 | 0x8000_0000_0000_0000u64) & 0x8000_0000_0000_0000u64 != 0
        &&& ((flags | 7u64) & !0x8000_0000_0000_0000u64) & 7u64 == 7u64
        &&& ((flags | 7u64) & !0x8000_0000_0000_0000u64) & 0x8000_0000_0000_0000u64 == 0
        &&& (pa | (((flags & 0x8000_0000_0000_1fffu64) | 7u64 | 0x8000_0000_0000_0000u64) & 0x8000_0000_0000_1fffu64)) & 7u64 == 7u64
        &&& (pa | (((flags & 0x8000_0000_0000_1fffu64) | 7u64 | 0x8000_0000_0000_0000u64) & 0x8000_0000_0000_1fffu64)) & 0x8000_0000_0000_0000u64 != 0
        &&& (pa | ((((flags & 0x8000_0000_0000_1fffu64) | 7u64) & !0x8000_0000_0000_0000u64) & 0x8000_0000_0000_1fffu64)) & 7u64 == 7u64
        &&& ((pa | ((((flags & 0x8000_0000_0000_1fffu64) | 7u64) & !0x8000_0000_0000_0000u64) & 0x8000_0000_0000_1fffu64)) & 0x8000_0000_0000_0000u64 != 0) == (pa & 0x8000_0000_0000_0000u64 != 0)
        &&& (pa | (((flags & 0x8000_0000_0000_0f7fu64) | 7u64 | 0x8000_0000_0000_0000u64) & 0x8000_0000_0000_0f7fu64)) & 7u64 == 7u64
        &&& (pa | (((flags & 0x8000_0000_0000_0f7fu64) | 7u64 | 0x8000_0000_0000_0000u64) & 0x8000_0000_0000_0f7fu64)) & 0x8000_0000_0000_0000u64 != 0
        &&& (pa | ((((flags & 0x8000_0000_0000_0f7fu64) | 7u64) & !0x8000_0000_0000_0000u64) & 0x8000_0000_0000_0f7fu64)) & 7u64 == 7u64
        &&& ((pa | ((((flags & 0x8000_0000_0000_0f7fu64) | 7u64) & !0x8000_0000_0000_0000u64) & 0x8000_0000_0000_0f7fu64)) & 0x8000_0000_0000_0000u64 != 0) == (pa & 0x8000_0000_0000_0000u64 != 0)
        &&& pa & 0x000f_ffff_ffff_f000u64 == pa ==> pa & 0x8000_0000_0000_0000u64 == 0
    }) by (bit_vector);
}

impl AccessType {
    /// The flags of a PDPT entry (1 GiB) with this access type.
    pub fn get_1gb(&self, flags: u64) -> (r: u64)
        ensures
            r == access_flags(*self, flags),
    {
        access_flags_exec(*self, flags)
    }

    /// The flags of a page-directory entry (2 MiB) with this access type.
    pub fn get_2mb(&self, flags: u64) -> (r: u64)
        ensures
            r == access_flags(*self, flags),
    {
        access_flags_exec(*self, flags)
    }

    /// The flags of a page-table entry (4 KiB) with this access type.
    pub fn get_4kb(&self, flags: u64) -> (r: u64)
        ensures
            r == access_flags(*self, flags),
    {
        access_flags_exec(*self, flags)
    }
}

fn access_flags_exec(access: AccessType, flags: u64) -> (r: u64)
    ensures
        r == access_flags(access, flags),
{
    match access {
        AccessType::ReadWrite => flags | TABLE_FLAGS | ENTRY_XD,
        AccessType::ReadWriteExecute => (flags | TABLE_FLAGS) & !ENTRY_XD,
    }
}

pub fn is_present(e: u64) -> (r: bool)
    ensures
        r == entry_present(e),
{
    e & ENTRY_P != 0
}

/// Whether a page-directory entry maps a 2 MiB page.
pub fn is_page(e: u64) -> (r: bool)
    ensures
        r == entry_large(e),
{
    e & ENTRY_PS != 0
}

pub fn is_instruction_fetching_disabled(e: u64) -> (r: bool)
    ensures
        r == entry_fetch_disabled(e),
{
    e & ENTRY_XD != 0
}

/// The physical address an entry refers to.
pub fn address(e: u64) -> (r: u64)
    ensures
        r == entry_address(e),
{
    e & ADDRESS_MASK
}

/// Converts a page frame number to a physical address.
pub fn pa_from_pfn(pfn: u64) -> (r: u64)
    ensures
        r == pfn << 12u64,
{
    pfn << PAGE_SHIFT
}

/// The page frame part of `pa >> 12`.
pub fn pfn_from_pa(pa: u64) -> (r: u64)
    ensures
        r == (pa >> 12u64) & PFN_MASK,
{
    (pa >> PAGE_SHIFT) & PFN_MASK
}

/// Converts a page address to a page frame number.
pub fn page_to_pfn(page: u64) -> (r: u64)
    ensures
        r == page >> 12u64,
{
    page >> PAGE_SHIFT
}

/// The number of pages needed to hold `bytes` bytes: the least `n` with
/// `n * 4096 >= bytes`.
pub open spec fn pages_for(bytes: u64) -> nat {
    (bytes / 4096 + (if bytes % 4096 != 0 { 1int } else { 0int })) as nat
}

/// Calculates how many pages are required to hold the specified number of
/// bytes.
pub fn bytes_to_pages(bytes: u64) -> (r: u64)
    ensures
        r == pages_for(bytes),
        r * 4096 >= bytes,
        r == 0 || (r - 1) * 4096 < bytes,
{
    assert((bytes >> 12u64) == bytes / 4096 && (bytes & 0xfffu64) == bytes % 4096
        && bytes >> 12u64 < 0x10_0000_0000_0000u64) by (bit_vector);
    let whole = bytes >> PAGE_SHIFT;
    if bytes & 0xfff != 0 {
        whole + 1
    } else {
        whole
    }
}

/// Aligns the specified virtual address to a page: the start of the page
/// that holds it, so that 4097 gives 4096.
pub fn page_align(virtual_address: usize) -> (r: usize)
    ensures
        r == virtual_address & !0xfffusize,
        r % 4096 == 0,
        r <= virtual_address < r + 4096,
{
    let v = virtual_address;
    assert(v & !0xfffusize <= v && (v & !0xfffusize) % 4096 == 0 && v - (v & !0xfffusize) < 4096)
        by (bit_vector);
    v & PAGE_MASK
}

/// The page frame number of a PML4 entry: its address bits.
pub fn pml4_entry_pfn(e: u64) -> (r: u64)
    ensures
        r == e & PFN_MASK,
{
    assert((e & 0x000f_ffff_ffff_f000u64) & 0x000f_ffff_ffff_f000u64 == e & 0x000f_ffff_ffff_f000u64)
        by (bit_vector);
    (e & ADDRESS_MASK) & PFN_MASK
}

/// Calls `x86::bits64::paging::pml4_index`, which takes bits 39 to 47 of the
/// address.
#[verifier::external_body]
pub(crate) fn pml4_index_of(addr: u64) -> (r: usize)
    ensures
        r as u64 == pml4_index_spec(addr),
{
    pml4_index(VAddr::from(addr))
}

/// Calls `x86::bits64::paging::pdpt_index`, which takes bits 30 to 38 of the
/// address.
#[verifier::external_body]
pub(crate) fn pdpt_index_of(addr: u64) -> (r: usize)
    ensures
        r as u64 == pdpt_index_spec(addr),
{
    pdpt_index(VAddr::from(addr))
}

/// Calls `x86::bits64::paging::pd_index`, which takes bits 21 to 29 of the
/// address.
#[verifier::external_body]
pub(crate) fn pd_index_of(addr: u64) -> (r: usize)
    ensures
        r as u64 == pd_index_spec(addr),
{
    pd_index(VAddr::from(addr))
}

/// Calls `x86::bits64::paging::pt_index`, which takes bits 12 to 20 of the
/// address.
#[verifier::external_body]
pub(crate) fn pt_index_of(addr: u64) -> (r: usize)
    ensures
        r as u64 == pt_index_spec(addr),
{
    pt_index(VAddr::from(addr))
}

/// Calls `x86::bits64::paging::PML4Entry::new`: it asserts that the address
/// is 4 KiB aligned and below 2^52, and ors it with the flag bits that
/// `PML4Flags` knows.
#[verifier::external_body]
pub(crate) fn pml4_entry_new(pa: u64, flags: u64) -> (e: u64)
    requires
        entry_address_ok(pa),
    ensures
        e == pml4_entry_spec(pa, flags),
{
    PML4Entry::new(PAddr::from(pa), PML4Flags::from_bits_truncate(flags)).0
}

/// Calls `x86::bits64::paging::PDPTEntry::new`: it asserts that the address
/// is 4 KiB aligned and below 2^52, and ors it with the flag bits that
/// `PDPTFlags` knows.
#[verifier::external_body]
pub(crate) fn pdpt_entry_new(pa: u64, flags: u64) -> (e: u64)
    requires
        entry_address_ok(pa),
    ensures
        e == pdpt_entry_spec(pa, flags),
{
    PDPTEntry::new(PAddr::from(pa), PDPTFlags::from_bits_truncate(flags)).0
}

/// Calls `x86::bits64::paging::PDEntry::new`: it asserts that the address
/// is 4 KiB aligned and below 2^52, and ors it with the flag bits that
/// `PDFlags` knows.
#[verifier::external_body]
pub(crate) fn pd_entry_new(pa: u64, flags: u64) -> (e: u64)
    requires
        entry_address_ok(pa),
    ensures
        e == pd_entry_spec(pa, flags),
{
    PDEntry::new(PAddr::from(pa), PDFlags::from_bits_truncate(flags)).0
}

/// Calls `x86::bits64::paging::PTEntry::new`: it asserts that the address
/// is 4 KiB aligned and below 2^52, and ors it with the flag bits that
/// `PTFlags` knows.
#[verifier::external_body]
pub(crate) fn pt_entry_new(pa: u64, flags: u64) -> (e: u64)
    requires
        entry_address_ok(pa),
    ensures
        e == pt_entry_spec(pa, flags),
{
    PTEntry::new(PAddr::from(pa), PTFlags::from_bits_truncate(flags)).0
}

} // verus!
