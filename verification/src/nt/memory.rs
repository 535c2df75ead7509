//! Page-aligned and contiguous memory from the kernel.
use vstd::prelude::*;

use crate::svm::paging::PAGE_SIZE;

verus! {

pub const PAGE_SHIFT: u64 = 12;

/// Page-aligned memory from the non-paged pool.
pub struct AlignedMemory {
    address: u64,
}

impl AlignedMemory {
    pub closed spec fn address_spec(&self) -> u64 {
        self.address
    }

    /// Page-aligned, zero-filled memory of `bytes` bytes, at least a page,
    /// from `allocate`, which gives the memory's address or 0 when it
    /// fails: none for less than a page, when `allocate` fails, or when the
    /// memory is not page aligned.
    pub fn alloc_page_aligned<A: Fn(usize) -> u64>(bytes: usize, allocate: A) -> (r: Option<Self>)
        requires
            call_requires(allocate, (bytes,)),
        ensures
            bytes < PAGE_SIZE ==> r is None,
            match r {
                Some(m) => bytes >= PAGE_SIZE && m.address_spec() != 0 && m.address_spec() % 4096
                    == 0 && call_ensures(allocate, (bytes,), m.address_spec()),
                None => bytes < PAGE_SIZE || exists|a: u64| #[trigger]
                    call_ensures(allocate, (bytes,), a) && (a == 0 || a % 4096 != 0),
            },
    {
        if bytes < PAGE_SIZE {
            return None;
        }
        let memory = allocate(bytes);
        if memory == 0 {
            return None;
        }
        if memory % 4096 != 0 {
            return None;
        }
        Some(AlignedMemory { address: memory })
    }

    /// The address of the memory.
    pub fn as_ptr(&self) -> (r: u64)
        ensures
            r == self.address_spec(),
    {
        self.address
    }

    /// Frees the memory: the address to give back to the pool.
    pub fn free(self) -> (r: u64)
        ensures
            r == self.address_spec(),
    {
        self.address
    }
}

/// Page-aligned, zero-filled, physically contiguous memory of `bytes`
/// bytes from `allocate`, which gives its address or 0 when it fails.
pub fn alloc_contiguous<A: Fn(usize) -> u64>(bytes: usize, allocate: A) -> (r: Option<u64>)
    requires
        call_requires(allocate, (bytes,)),
    ensures
        match r {
            Some(a) => a != 0 && call_ensures(allocate, (bytes,), a),
            None => call_ensures(allocate, (bytes,), 0u64),
        },
{
    let memory = allocate(bytes);
    if memory == 0 {
        return None;
    }
    Some(memory)
}

} // verus!
