use amd_hypervisor::nt::memory::{alloc_contiguous, AlignedMemory};
use amd_hypervisor::nt::processor::{execute_on_each_processor, execute_on_processor};
use amd_hypervisor::utils::memory::{AllocType, AllocatedMemory, Release};
use std::cell::RefCell;

#[test]
fn allocations_are_never_null() {
    assert!(AllocatedMemory::alloc_pool(16, |_| 0).is_none());
    let m = AllocatedMemory::alloc_pool(16, |n| {
        assert_eq!(n, 16);
        0x5000
    })
    .unwrap();
    assert_eq!(m.as_ptr(), 0x5000);
    assert_eq!(*m.inner(), 0x5000);
    assert_eq!(m.free(true), Some(Release::Pool(0x5000)));
    let m = AllocatedMemory::alloc_executable(16, |_| 0x6000).unwrap();
    assert_eq!(m.free(false), None);
    assert!(AllocatedMemory::alloc_executable(16, |_| 0).is_none());
}

#[test]
fn contiguous_memory_goes_back_as_contiguous() {
    let m = AllocatedMemory::alloc_contiguous(0x2000, |_| 0x10_0000).unwrap();
    assert_eq!(m.free(true), Some(Release::Contiguous(0x10_0000)));
    assert!(AllocatedMemory::alloc_contiguous(0x2000, |_| 0).is_none());
    assert_eq!(alloc_contiguous(0x1000, |_| 0x3000), Some(0x3000));
    assert_eq!(alloc_contiguous(0x1000, |_| 0), None);
    assert_ne!(AllocType::Normal, AllocType::Contiguous);
}

#[test]
fn aligned_allocation_rules() {
    let released = RefCell::new(Vec::new());
    // Less than a page: nothing is allocated.
    let asked = RefCell::new(0);
    assert!(AllocatedMemory::alloc_aligned(0xfff, |_| { *asked.borrow_mut() += 1; 0x1000 }, |r| released.borrow_mut().push(r)).is_none());
    assert_eq!(*asked.borrow(), 0);
    // Aligned memory is kept.
    let m = AllocatedMemory::alloc_aligned(0x1000, |_| 0x4000, |r| released.borrow_mut().push(r)).unwrap();
    assert_eq!(m.as_ptr(), 0x4000);
    // Unaligned memory is handed back.
    assert!(AllocatedMemory::alloc_aligned(0x1000, |_| 0x4010, |r| released.borrow_mut().push(r)).is_none());
    assert_eq!(*released.borrow(), vec![Release::Pool(0x4010)]);
    assert!(AllocatedMemory::alloc_aligned(0x1000, |_| 0, |r| released.borrow_mut().push(r)).is_none());

    assert!(AlignedMemory::alloc_page_aligned(0x800, |_| 0x1000).is_none());
    assert!(AlignedMemory::alloc_page_aligned(0x1000, |_| 0x1008).is_none());
    assert!(AlignedMemory::alloc_page_aligned(0x1000, |_| 0).is_none());
    let a = AlignedMemory::alloc_page_aligned(0x2000, |_| 0x8000).unwrap();
    assert_eq!(a.as_ptr(), 0x8000);
    assert_eq!(a.free(), 0x8000);
}

#[test]
fn each_processor_in_order_until_one_fails() {
    let seen = RefCell::new(Vec::new());
    assert_eq!(execute_on_each_processor(4, |i| { seen.borrow_mut().push(i); Some(()) }), Some(()));
    assert_eq!(*seen.borrow(), vec![0, 1, 2, 3]);
    seen.borrow_mut().clear();
    assert_eq!(execute_on_each_processor(4, |i| { seen.borrow_mut().push(i); if i == 2 { None } else { Some(()) } }), None);
    assert_eq!(*seen.borrow(), vec![0, 1, 2]);
    assert_eq!(execute_on_each_processor(0, |_| None), Some(()));
    assert_eq!(execute_on_processor(5, 4, |_| Some(())), None);
    assert_eq!(execute_on_processor(4, 4, |_| Some(())), Some(()));
    assert_eq!(execute_on_processor(1, 4, |_| None), None);
}
