//! The physical memory ranges of the system.
use tinyvec::ArrayVec;
use vstd::prelude::*;

use crate::svm::paging::{bytes_to_pages, pages_for, PAGE_SHIFT};

verus! {

/// The most physical memory ranges a descriptor holds.
pub const MAX_RANGE_COUNT: usize = 32;

#[derive(Debug, Default)]
pub struct PhysicalMemoryRange {
    pub base_address: u64,
    pub number_of_bytes: u64,
}

impl PhysicalMemoryRange {
    /// The page frame number of the first page of the range.
    pub fn base_page(&self) -> (r: u64)
        ensures
            r == self.base_address / 4096,
    {
        let base = self.base_address;
        assert(base >> 12u64 == base / 4096) by (bit_vector);
        base >> PAGE_SHIFT
    }

    /// The number of pages needed to hold the range.
    pub fn page_count(&self) -> (r: u64)
        ensures
            r == pages_for(self.number_of_bytes),
    {
        bytes_to_pages(self.number_of_bytes)
    }
}

#[verifier::external_type_specification]
#[verifier::external_body]
#[verifier::reject_recursive_types(A)]
pub struct ExArrayVec<A>(ArrayVec<A>);

/// What a `tinyvec::ArrayVec` of memory ranges holds, in order, each range
/// as its base address and its size in bytes.
pub uninterp spec fn range_list(ranges: ArrayVec<[PhysicalMemoryRange; 32]>) -> Seq<(u64, u64)>;

/// Calls `tinyvec::ArrayVec::new`, which makes an empty vector.
#[verifier::external_body]
fn ranges_new() -> (r: ArrayVec<[PhysicalMemoryRange; 32]>)
    ensures
        range_list(r) == Seq::<(u64, u64)>::empty(),
{
    ArrayVec::new()
}

/// Calls `tinyvec::ArrayVec::push`, which appends the range; it panics
/// when the vector already holds 32 ranges.
#[verifier::external_body]
fn ranges_push(ranges: &mut ArrayVec<[PhysicalMemoryRange; 32]>, range: PhysicalMemoryRange)
    requires
        range_list(*old(ranges)).len() < 32,
    ensures
        range_list(*final(ranges)) == range_list(*old(ranges)).push(
            (range.base_address, range.number_of_bytes),
        ),
{
    ranges.push(range)
}

/// Calls `tinyvec::ArrayVec::as_slice` and takes the first `count` ranges
/// of it, which panics when the vector holds fewer.
#[verifier::external_body]
fn ranges_prefix(ranges: &ArrayVec<[PhysicalMemoryRange; 32]>, count: usize) -> (r: &[PhysicalMemoryRange])
    requires
        count <= range_list(*ranges).len(),
    ensures
        r@.len() == count,
        forall|i: int|
            0 <= i < count ==> (#[trigger] r@[i].base_address, r@[i].number_of_bytes) == range_list(
                *ranges,
            )[i],
{
    &ranges.as_slice()[0..count]
}

/// The entry that ends the kernel's table of memory ranges.
pub open spec fn is_terminator(range: (u64, u64)) -> bool {
    range.0 == 0 && range.1 == 0
}

/// A table of memory ranges whose first terminator is at index `t`: it
/// holds between 1 and 32 ranges before it.
pub open spec fn range_table_ends_at(raw: Seq<(u64, u64)>, t: int) -> bool {
    &&& 0 < t <= 32
    &&& t < raw.len()
    &&& is_terminator(raw[t])
    &&& forall|i: int| 0 <= i < t ==> !is_terminator(#[trigger] raw[i])
}

/// The number of pages needed to hold each of a list of ranges, summed.
pub open spec fn pages_total(ranges: Seq<(u64, u64)>) -> nat
    decreases ranges.len(),
{
    if ranges.len() == 0 {
        0
    } else {
        pages_total(ranges.drop_last()) + pages_for(ranges.last().1)
    }
}

pub proof fn lemma_pages_total_bound(ranges: Seq<(u64, u64)>)
    ensures
        pages_total(ranges) <= ranges.len() * 0x10_0000_0000_0000,
    decreases ranges.len(),
{
    if ranges.len() > 0 {
        lemma_pages_total_bound(ranges.drop_last());
    }
}

/// The physical memory ranges of the system, as the kernel reports them.
#[derive(Debug)]
pub struct PhysicalMemoryDescriptor {
    ranges: ArrayVec<[PhysicalMemoryRange; 32]>,
    count: usize,
}

impl PhysicalMemoryDescriptor {
    pub closed spec fn wf(&self) -> bool {
        &&& 0 < self.count <= 32
        &&& range_list(self.ranges).len() == self.count
    }

    /// The ranges, each as its base address and its size in bytes.
    pub closed spec fn ranges(&self) -> Seq<(u64, u64)> {
        range_list(self.ranges)
    }

    pub open spec fn page_count_spec(&self) -> nat {
        pages_total(self.ranges())
    }

    pub open spec fn total_size_spec(&self) -> nat {
        self.page_count_spec() * 4096
    }

    /// Reads the ranges from the kernel's table, which ends with a range
    /// whose base address and size are both zero.
    pub fn new(raw: &Vec<(u64, u64)>) -> (r: Self)
        requires
            exists|t: int| range_table_ends_at(raw@, t),
        ensures
            r.wf(),
            r.ranges() == raw@.subrange(0, choose|t: int| range_table_ends_at(raw@, t)),
    {
        let ghost t = choose|t: int| range_table_ends_at(raw@, t);
        let mut ranges = ranges_new();
        let mut count: usize = 0;
        loop
            invariant_except_break
                range_table_ends_at(raw@, t),
                count <= t,
                range_list(ranges) == raw@.subrange(0, count as int),
            ensures
                count == t,
                range_list(ranges) == raw@.subrange(0, t),
            decreases t - count,
        {
            let (base_address, number_of_bytes) = raw[count];
            if base_address == 0 && number_of_bytes == 0 {
                break;
            }
            ranges_push(&mut ranges, PhysicalMemoryRange { base_address, number_of_bytes });
            count = count + 1;
            assert(range_list(ranges) =~= raw@.subrange(0, count as int));
        }
        Self { ranges, count }
    }

    /// The ranges.
    pub fn get_ranges(&self) -> (r: &[PhysicalMemoryRange])
        requires
            self.wf(),
        ensures
            r@.len() == self.ranges().len(),
            forall|i: int|
                0 <= i < r@.len() ==> (#[trigger] r@[i].base_address, r@[i].number_of_bytes)
                    == self.ranges()[i],
    {
        ranges_prefix(&self.ranges, self.count)
    }

    /// Returns the number of physical memory pages.
    pub fn page_count(&self) -> (r: usize)
        requires
            self.wf(),
            self.page_count_spec() <= usize::MAX,
        ensures
            r == self.page_count_spec(),
    {
        let ranges = self.get_ranges();
        let ghost s = self.ranges();
        let mut total: usize = 0;
        let mut i: usize = 0;
        while i < ranges.len()
            invariant
                ranges@.len() == s.len(),
                s.len() <= 32,
                forall|j: int|
                    0 <= j < ranges@.len() ==> (#[trigger] ranges@[j].base_address,
                    ranges@[j].number_of_bytes) == s[j],
                pages_total(s) <= usize::MAX,
                i <= ranges@.len(),
                total == pages_total(s.subrange(0, i as int)),
            decreases ranges@.len() - i,
        {
            proof {
                assert(s.subrange(0, i + 1).drop_last() =~= s.subrange(0, i as int));
                assert(s.subrange(0, i + 1).last() == s[i as int]);
                assert((ranges@[i as int].base_address, ranges@[i as int].number_of_bytes)
                    == s[i as int]);
                lemma_pages_total_prefix(s, i + 1);
            }
            let pages = bytes_to_pages(ranges[i].number_of_bytes);
            total = total + pages as usize;
            i = i + 1;
        }
        assert(s.subrange(0, i as int) =~= s);
        total
    }

    /// Returns the total physical memory size in bytes.
    pub fn total_size(&self) -> (r: usize)
        requires
            self.wf(),
            self.total_size_spec() <= usize::MAX,
        ensures
            r == self.total_size_spec(),
    {
        self.page_count() * 4096
    }

    /// Returns the total physical memory size in whole gigabytes.
    pub fn total_size_in_gb(&self) -> (r: usize)
        requires
            self.wf(),
            self.total_size_spec() <= usize::MAX,
        ensures
            r == self.total_size_spec() / 0x4000_0000,
    {
        self.total_size() / 0x4000_0000
    }
}

/// The pages of a prefix of the ranges never exceed those of all of them.
pub proof fn lemma_pages_total_prefix(s: Seq<(u64, u64)>, n: int)
    requires
        0 <= n <= s.len(),
    ensures
        pages_total(s.subrange(0, n)) <= pages_total(s),
    decreases s.len() - n,
{
    if n < s.len() {
        lemma_pages_total_prefix(s, n + 1);
        assert(s.subrange(0, n + 1).drop_last() =~= s.subrange(0, n));
    } else {
        assert(s.subrange(0, n) =~= s);
    }
}

} // verus!
