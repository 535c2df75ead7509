use amd_hypervisor::nt::addresses::PhysicalAddress;
use amd_hypervisor::nt::physmem_descriptor::{PhysicalMemoryDescriptor, PhysicalMemoryRange};
use amd_hypervisor::svm::events::EventInjection;
use amd_hypervisor::svm::msr_bitmap::MsrBitmap;
use amd_hypervisor::svm::paging::{bytes_to_pages, page_align};
use amd_hypervisor::svm::data::processor::ProcessorData;
use amd_hypervisor::svm::processors::{HypervisorIdentity, Processor};

#[test]
fn msr_bitmap_hooks_set_two_bits_per_msr() {
    let mut bitmap = MsrBitmap::new();
    assert!(bitmap.msr_bitmap_0.iter().chain(bitmap.msr_bitmap_1.iter()).all(|b| *b == 0));
    // EFER: range C000_0000, offset 0x80 * 2 = 0x100 bits, byte 0x20.
    bitmap.hook_msr(0xC000_0080);
    assert_eq!(bitmap.msr_bitmap_1[0x20], 0b11);
    // The time-stamp counter MSR 0x10: bit 0x20 of the first range, read only.
    bitmap.hook_rdmsr(0x10);
    assert_eq!(bitmap.msr_bitmap_0[4], 0b01);
    // The host save area MSR C001_0117: bit 0x22e of the third range.
    bitmap.hook_rdmsr(0xC001_0117);
    assert_eq!(bitmap.msr_bitmap_2[0x45], 0b0100_0000);
    bitmap.hook_wrmsr(0xC001_0117);
    assert_eq!(bitmap.msr_bitmap_2[0x45], 0b1100_0000);
    // Hooking again changes nothing.
    bitmap.hook_msr(0xC000_0080);
    assert_eq!(bitmap.msr_bitmap_1[0x20], 0b11);
    let header = MsrBitmap::bitmap_header(0x1234_0000);
    assert_eq!(header.SizeOfBitMap, 0x2000);
    assert_eq!(header.Buffer, 0x1234_0000);
}

#[test]
fn msr_bitmap_ranges_cover_0x2000_msrs() {
    let mut bitmap = MsrBitmap::new();
    // MSR 0x1000: bit 0x2000 of the first range, byte 0x400; MSR 0 stays clear.
    bitmap.hook_rdmsr(0x1000);
    assert_eq!(bitmap.msr_bitmap_0[0x400], 0b01);
    assert_eq!(bitmap.msr_bitmap_0[0], 0);
    // The last MSR of the second range: bits 0x3ffe and 0x3fff, the top of byte 0x7ff.
    bitmap.hook_msr(0xC000_1FFF);
    assert_eq!(bitmap.msr_bitmap_1[0x7ff], 0b1100_0000);
    assert_eq!(bitmap.msr_bitmap_1[0x1ff], 0);
    let set: usize = bitmap
        .msr_bitmap_0
        .iter()
        .chain(bitmap.msr_bitmap_1.iter())
        .chain(bitmap.msr_bitmap_2.iter())
        .chain(bitmap.msr_bitmap_3.iter())
        .map(|b| b.count_ones() as usize)
        .sum();
    assert_eq!(set, 3);
}

#[test]
fn events_encode_vector_type_and_flags() {
    let gp = EventInjection::gp();
    assert_eq!(gp.0, 0x8000_0b0d);
    assert_eq!(gp.get_vector(), 13);
    assert_eq!(gp.get_type(), 3);
    assert_eq!(gp.get_error_code_valid(), 1);
    assert_eq!(gp.get_valid(), 1);
    let bp = EventInjection::bp();
    assert_eq!(bp.0, 0x8000_0303);
    assert_eq!(bp.get_vector(), 3);
    assert_eq!(bp.get_error_code_valid(), 0);
    let mut e = EventInjection(0);
    e.set_vector(0x1ff);
    assert_eq!(e.get_vector(), 0xff);
    e.set_error_code(0xdead_beef);
    assert_eq!(e.get_error_code(), 0xdead_beef);
    assert_eq!(e.get_vector(), 0xff);
    let mut data = ProcessorData::new();
    bp.inject(&mut data);
    assert_eq!(data.guest_vmcb.control_area.event_inj, 0x8000_0303);
}

#[test]
fn physical_memory_ranges_up_to_the_terminator() {
    let raw = vec![(0x1000, 0x9e000), (0x100000, 0x4000_0000), (0, 0), (0x5000, 0x1000)];
    let desc = PhysicalMemoryDescriptor::new(&raw);
    let ranges = desc.get_ranges();
    assert_eq!(ranges.len(), 2);
    assert_eq!(ranges[1].base_address, 0x100000);
    assert_eq!(ranges[0].page_count(), 0x9e);
    assert_eq!(ranges[1].base_page(), 0x100);
    assert_eq!(desc.page_count(), 0x9e + 0x40000);
    assert_eq!(desc.total_size(), (0x9e + 0x40000) * 0x1000);
    assert_eq!(desc.total_size_in_gb(), 1);
    let r = PhysicalMemoryRange { base_address: 0x2000, number_of_bytes: 0x1fff };
    assert_eq!(r.page_count(), 2);
    let r = PhysicalMemoryRange { base_address: 0, number_of_bytes: 4097 };
    assert_eq!(r.page_count(), 2);
    let r = PhysicalMemoryRange { base_address: 0, number_of_bytes: 0x1000 };
    assert_eq!(r.page_count(), 1);
    let r = PhysicalMemoryRange { base_address: 0x1fff, number_of_bytes: 0 };
    assert_eq!(r.page_count(), 0);
    assert_eq!(r.base_page(), 1);
}

#[test]
fn processors_know_this_hypervisor_by_0x42() {
    assert!(Processor::is_virtualized_by(Some(HypervisorIdentity::Unknown(0x42, 0x42, 0x42))));
    assert!(!Processor::is_virtualized_by(Some(HypervisorIdentity::Unknown(0x42, 0x42, 0x43))));
    assert!(!Processor::is_virtualized_by(Some(HypervisorIdentity::Known)));
    assert!(!Processor::is_virtualized_by(None));
    let p = Processor::new(3);
    assert_eq!(p.id(), 3);
    assert_eq!(Processor::efer_with_svm(0xd01), 0x1d01);
    assert_eq!(Processor::efer_with_svm(0x1d01), 0x1d01);
    let _ = p.is_virtualized();
}

#[test]
fn physical_addresses_align_down() {
    let pa = PhysicalAddress::from_pa(0x1234_5678);
    assert_eq!(pa.align_down_to_base_page().as_u64(), 0x1234_5000);
    assert_eq!(pa.align_down_to_large_page().as_u64(), 0x1220_0000);
    assert_eq!(pa.pfn(), 0x12345);
    assert_eq!(PhysicalAddress::from_pfn(0x12345).pa(), 0x1234_5000);
}

#[test]
fn page_align_gives_the_start_of_the_page() {
    assert_eq!(page_align(4097), 4096);
    assert_eq!(page_align(4096), 4096);
    assert_eq!(page_align(0x1fff), 0x1000);
    assert_eq!(page_align(0xfff), 0);
    assert_eq!(page_align(usize::MAX), usize::MAX & !0xfff);
}

#[test]
fn bytes_to_pages_rounds_up() {
    assert_eq!(bytes_to_pages(0), 0);
    assert_eq!(bytes_to_pages(1), 1);
    assert_eq!(bytes_to_pages(4096), 1);
    assert_eq!(bytes_to_pages(4097), 2);
    assert_eq!(bytes_to_pages(u64::MAX), 0x10_0000_0000_0000);
}
