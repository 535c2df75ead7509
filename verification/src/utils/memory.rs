//! Memory the driver allocates from the kernel, which is never at address 0
//! and knows how it has to be given back.
use vstd::prelude::*;

use crate::svm::paging::PAGE_SIZE;

verus! {

/// Where the memory came from, which decides how it is freed.
#[derive(Debug, Clone, Copy, PartialEq, Eq, Structural)]
pub enum AllocType {
    /// Non-paged pool.
    Normal,
    /// Physically contiguous memory.
    Contiguous,
}

/// How allocated memory is given back to the kernel.
#[derive(Debug, Clone, Copy, PartialEq, Eq, Structural)]
pub enum Release {
    /// Back to the non-paged pool, at this address.
    Pool(u64),
    /// Back as contiguous memory, at this address.
    Contiguous(u64),
}

/// Allocated memory: its address, never 0, and where it came from.
pub struct AllocatedMemory {
    address: u64,
    alloc_type: AllocType,
}

impl AllocatedMemory {
    #[verifier::type_invariant]
    spec fn not_null(self) -> bool {
        self.address != 0
    }

    pub closed spec fn address_spec(&self) -> u64 {
        self.address
    }

    pub closed spec fn alloc_type_spec(&self) -> AllocType {
        self.alloc_type
    }

    /// Non-paged memory of `bytes` bytes from `allocate`, which gives the
    /// zero-filled memory's address or 0 when it fails; none when it fails.
    pub fn alloc_pool<A: Fn(usize) -> u64>(bytes: usize, allocate: A) -> (r: Option<Self>)
        requires
            call_requires(allocate, (bytes,)),
        ensures
            match r {
                Some(m) => m.address_spec() != 0 && m.alloc_type_spec() == AllocType::Normal
                    && call_ensures(allocate, (bytes,), m.address_spec()),
                None => call_ensures(allocate, (bytes,), 0u64),
            },
    {
        let memory = allocate(bytes);
        if memory == 0 {
            return None;
        }
        Some(AllocatedMemory { address: memory, alloc_type: AllocType::Normal })
    }

    /// Executable non-paged memory: the non-paged pool is executable, so
    /// this is `alloc_pool`.
    pub fn alloc_executable<A: Fn(usize) -> u64>(bytes: usize, allocate: A) -> (r: Option<Self>)
        requires
            call_requires(allocate, (bytes,)),
        ensures
            match r {
                Some(m) => m.address_spec() != 0 && m.alloc_type_spec() == AllocType::Normal
                    && call_ensures(allocate, (bytes,), m.address_spec()),
                None => call_ensures(allocate, (bytes,), 0u64),
            },
    {
        Self::alloc_pool(bytes, allocate)
    }

    /// Page-aligned non-paged memory of `bytes` bytes, at least a page:
    /// none for less than a page, when `allocate` fails, or when the memory
    /// it gives is not page aligned (that memory is then handed to
    /// `release`).
    pub fn alloc_aligned<A: Fn(usize) -> u64, R: Fn(Release)>(
        bytes: usize,
        allocate: A,
        release: R,
    ) -> (r: Option<Self>)
        requires
            call_requires(allocate, (bytes,)),
            forall|x: Release| call_requires(release, (x,)),
        ensures
            bytes < PAGE_SIZE ==> r is None,
            match r {
                Some(m) => bytes >= PAGE_SIZE && m.address_spec() != 0 && m.address_spec() % 4096
                    == 0 && m.alloc_type_spec() == AllocType::Normal && call_ensures(
                    allocate,
                    (bytes,),
                    m.address_spec(),
                ),
                None => bytes < PAGE_SIZE || exists|a: u64| #[trigger]
                    call_ensures(allocate, (bytes,), a) && (a == 0 || (a % 4096 != 0
                        && call_ensures(release, (Release::Pool(a),), ()))),
            },
    {
        if bytes < PAGE_SIZE {
            return None;
        }
        let memory = match Self::alloc_pool(bytes, allocate) {
            Some(memory) => memory,
            None => return None,
        };
        if memory.address % 4096 != 0 {
            release(memory.release_of());
            return None;
        }
        Some(memory)
    }

    /// Page-aligned, zero-filled, physically contiguous memory of `bytes`
    /// bytes from `allocate`, which gives its address or 0 when it fails.
    pub fn alloc_contiguous<A: Fn(usize) -> u64>(bytes: usize, allocate: A) -> (r: Option<Self>)
        requires
            call_requires(allocate, (bytes,)),
        ensures
            match r {
                Some(m) => m.address_spec() != 0 && m.alloc_type_spec() == AllocType::Contiguous
                    && call_ensures(allocate, (bytes,), m.address_spec()),
                None => call_ensures(allocate, (bytes,), 0u64),
            },
    {
        let memory = allocate(bytes);
        if memory == 0 {
            return None;
        }
        Some(AllocatedMemory { address: memory, alloc_type: AllocType::Contiguous })
    }

    /// How this memory goes back: to the pool or as contiguous memory.
    fn release_of(&self) -> (r: Release)
        ensures
            r == release_spec(self.address_spec(), self.alloc_type_spec()),
    {
        match self.alloc_type {
            AllocType::Normal => Release::Pool(self.address),
            AllocType::Contiguous => Release::Contiguous(self.address),
        }
    }

    /// Frees the memory: how it goes back when its address is still valid
    /// memory (`is_valid`), nothing when it was freed already.
    pub fn free(self, is_valid: bool) -> (r: Option<Release>)
        ensures
            r == (if is_valid {
                Some(release_spec(self.address_spec(), self.alloc_type_spec()))
            } else {
                None
            }),
    {
        if !is_valid {
            return None;
        }
        Some(self.release_of())
    }

    /// The address of the memory.
    pub fn as_ptr(&self) -> (r: u64)
        ensures
            r == self.address_spec(),
            r != 0,
    {
        proof {
            use_type_invariant(self);
        }
        self.address
    }

    /// The address of the memory, never 0.
    pub fn inner(&self) -> (r: &u64)
        ensures
            *r == self.address_spec(),
            *r != 0,
    {
        proof {
            use_type_invariant(self);
        }
        &self.address
    }
}

/// How memory at `address` of type `t` goes back.
pub open spec fn release_spec(address: u64, t: AllocType) -> Release {
    match t {
        AllocType::Normal => Release::Pool(address),
        AllocType::Contiguous => Release::Contiguous(address),
    }
}

} // verus!
