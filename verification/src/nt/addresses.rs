//! Physical addresses.
use vstd::prelude::*;
use x86::bits64::paging::{PAddr, VAddr};

verus! {

/// Calls `x86::bits64::paging::PAddr::align_down_to_base_page`, which
/// clears the low 12 bits.
#[verifier::external_body]
fn paddr_align_down_to_base_page(pa: u64) -> (r: u64)
    ensures
        r == pa & !0xfffu64,
{
    PAddr::from(pa).align_down_to_base_page().as_u64()
}

/// Calls `x86::bits64::paging::PAddr::align_down_to_large_page`, which
/// clears the low 21 bits.
#[verifier::external_body]
fn paddr_align_down_to_large_page(pa: u64) -> (r: u64)
    ensures
        r == pa & !0x1f_ffffu64,
{
    PAddr::from(pa).align_down_to_large_page().as_u64()
}

/// Calls `x86::bits64::paging::VAddr::base_page_offset`, which keeps the
/// low 12 bits.
#[verifier::external_body]
pub(crate) fn base_page_offset(va: u64) -> (r: u64)
    ensures
        r == va & 0xfffu64,
{
    VAddr::from(va).base_page_offset()
}

/// A physical address.
#[derive(Debug, Clone, Copy)]
pub struct PhysicalAddress(u64);

impl View for PhysicalAddress {
    type V = u64;

    closed spec fn view(&self) -> u64 {
        self.0
    }
}

impl PhysicalAddress {
    pub fn from_pa(pa: u64) -> (r: Self)
        ensures
            r@ == pa,
    {
        PhysicalAddress(pa)
    }

    /// The address of page frame `pfn`, with the bits above 64 dropped.
    pub fn from_pfn(pfn: u64) -> (r: Self)
        ensures
            r@ == pfn << 12u64,
    {
        PhysicalAddress(pfn << 12)
    }

    /// The page frame number.
    pub fn pfn(&self) -> (r: u64)
        ensures
            r == self@ >> 12u64,
    {
        self.0 >> 12
    }

    pub fn pa(&self) -> (r: u64)
        ensures
            r == self@,
    {
        self.0
    }

    pub fn as_u64(&self) -> (r: u64)
        ensures
            r == self@,
    {
        self.0
    }

    /// The address of the 4 KiB page the address is in.
    pub fn align_down_to_base_page(&self) -> (r: Self)
        ensures
            r@ == self@ & !0xfffu64,
    {
        PhysicalAddress(paddr_align_down_to_base_page(self.0))
    }

    /// The address of the 2 MiB page the address is in.
    pub fn align_down_to_large_page(&self) -> (r: Self)
        ensures
            r@ == self@ & !0x1f_ffffu64,
    {
        PhysicalAddress(paddr_align_down_to_large_page(self.0))
    }
}

} // verus!
