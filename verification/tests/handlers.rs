use amd_hypervisor::handlers::cpuid::{handle_features, handle_features_result};
use amd_hypervisor::handlers::msr::{handle_hsave, handle_rdtsc as handle_rdtsc_msr};
use amd_hypervisor::handlers::rdtsc::{handle_rdtsc, RDTSC_MODIFIER};
use amd_hypervisor::svm::data::guest::GuestRegisters;
use amd_hypervisor::svm::data::processor::ProcessorData;
use amd_hypervisor::svm::vmexit::cpuid::{handle_cpuid_result, CpuIdResult};
use amd_hypervisor::svm::vmexit::msr::{complete_msr_read, handle_msr, is_valid_msr, msr_ready, MsrAccess};
use amd_hypervisor::svm::vmexit::rdtsc::handle_rdtsc as vmexit_handle_rdtsc;
use amd_hypervisor::svm::vmexit::{is_handled_exit, ExitType};

fn regs(rax: u64, rcx: u64, rdx: u64) -> GuestRegisters {
    GuestRegisters {
        r15: 15,
        r14: 14,
        r13: 13,
        r12: 12,
        r11: 11,
        r10: 10,
        r9: 9,
        r8: 8,
        rdi: 7,
        rsi: 6,
        rbp: 5,
        rsp: 4,
        rbx: 3,
        rdx,
        rcx,
        rax,
    }
}

#[test]
fn rdtsc_handler_splits_the_counter() {
    let mut data = ProcessorData::new();
    let mut r = regs(1, 2, 3);
    let exit = handle_rdtsc(&mut data, &mut r, 0x1234_5678_9abc_def0);
    assert_eq!(exit, ExitType::IncrementRIP);
    assert_eq!(r.rax, 0x9abc_def0);
    assert_eq!(r.rdx, 0x1234_5678);
    assert_eq!((r.rdx << 32) | r.rax, 0x1234_5678_9abc_def0);
    assert_eq!(r.rbx, 3);
    assert_eq!(r.rcx, 2);
}

#[test]
fn msr_rdtsc_handler_slows_the_counter() {
    let mut data = ProcessorData::new();
    let mut r = regs(1, 2, 3);
    let tsc: u64 = 0x0000_0064_0000_0000 + 12345;
    let exit = handle_rdtsc_msr(&mut data, &mut r, tsc);
    assert_eq!(exit, ExitType::IncrementRIP);
    let slowed = tsc / RDTSC_MODIFIER;
    assert_eq!(r.rax, slowed & 0xffff_ffff);
    assert_eq!(r.rdx, slowed >> 32);
    assert_eq!(r.rdx, 1);
}

#[test]
fn hsave_handler_reads_zero() {
    let mut data = ProcessorData::new();
    let mut r = regs(0xdead, 0xc001_0117, 0xbeef);
    assert_eq!(handle_hsave(&mut data, &mut r), ExitType::IncrementRIP);
    assert_eq!(r.rax, 0);
    assert_eq!(r.rdx, 0);
    assert_eq!(r.rcx, 0xc001_0117);
}

#[test]
fn features_handler_sets_the_hypervisor_bit() {
    let mut r = regs(1, 0, 0);
    let c = CpuIdResult { eax: 0x00a2_0f12, ebx: 0x0010_0800, ecx: 0x7ed8_320b, edx: 0x178b_fbff };
    assert_eq!(handle_features_result(&mut r, c), ExitType::IncrementRIP);
    assert_eq!(r.rax, 0x00a2_0f12);
    assert_eq!(r.rbx, 0x0010_0800);
    assert_eq!(r.rcx, 0xfed8_320b);
    assert_eq!(r.rdx, 0x178b_fbff);
}

#[test]
fn features_handler_on_this_processor() {
    let mut data = ProcessorData::new();
    let mut r = regs(1, 0, 0);
    assert_eq!(handle_features(&mut data, &mut r), ExitType::IncrementRIP);
    assert_eq!(r.rcx >> 31, 1);
    assert!(r.rcx <= 0xffff_ffff);
}

#[test]
fn cpuid_exit_answers_the_hypervisor_leaves() {
    let c = CpuIdResult { eax: 1, ebx: 2, ecx: 3, edx: 4 };
    let mut r = regs(0x4000_0000, 0, 0);
    assert_eq!(handle_cpuid_result(&mut r, c), ExitType::IncrementRIP);
    assert_eq!((r.rax, r.rbx, r.rcx, r.rdx), (0x4000_0001, 0x42, 0x42, 0x42));

    let mut r = regs(0x4000_0001, 0, 0);
    handle_cpuid_result(&mut r, c);
    assert_eq!((r.rax, r.rbx, r.rcx, r.rdx), (0x4876_2330, 0, 0, 0));

    let mut r = regs(1, 0, 0);
    handle_cpuid_result(&mut r, c);
    assert_eq!((r.rax, r.rbx, r.rcx, r.rdx), (1, 2, 0x8000_0003, 4));

    let mut r = regs(7, 0, 0);
    handle_cpuid_result(&mut r, c);
    assert_eq!((r.rax, r.rbx, r.rcx, r.rdx), (1, 2, 3, 4));

    let mut r = regs(0x4141_4141, 9, 9);
    assert_eq!(handle_cpuid_result(&mut r, c), ExitType::ExitHypervisor);
    assert_eq!((r.rax, r.rbx, r.rcx, r.rdx), (0x4141_4141, 3, 9, 9));
}

#[test]
fn vmexit_rdtsc_divides_by_a_hundred() {
    let mut data = ProcessorData::new();
    let mut r = regs(0, 0, 0);
    assert_eq!(vmexit_handle_rdtsc(&mut data, &mut r, 0x64_0000_0000), ExitType::IncrementRIP);
    assert_eq!(r.rax, 0x1_0000_0000);
    assert_eq!(r.rdx, 1);
}

#[test]
fn valid_msrs() {
    assert!(is_valid_msr(0x10));
    assert!(is_valid_msr(0xC000_0080));
    assert!(is_valid_msr(0xC001_0117));
    assert!(!is_valid_msr(0x0000_0002));
    assert!(!is_valid_msr(0x1337_1337));
}

#[test]
fn msr_exit_decisions() {
    // An invalid MSR gets a #GP.
    let mut data = ProcessorData::new();
    let mut r = regs(0, 0x1337_1337, 0);
    let (exit, access) = handle_msr(&mut data, &mut r);
    assert_eq!(exit, ExitType::IncrementRIP);
    assert_eq!(access, MsrAccess::Nothing);
    assert_eq!(data.guest_vmcb.control_area.event_inj, 0x8000_0b0d);

    // A write to EFER that clears SVME gets a #GP, and EFER stays as it was.
    let mut data = ProcessorData::new();
    data.guest_vmcb.control_area.exit_info1 = 1;
    data.guest_vmcb.save_area.efer = 0x1d01;
    let mut r = regs(0x0000_0d01, 0xC000_0080, 0);
    let (exit, access) = handle_msr(&mut data, &mut r);
    assert_eq!(exit, ExitType::IncrementRIP);
    assert_eq!(access, MsrAccess::Nothing);
    assert_eq!(data.guest_vmcb.save_area.efer, 0x1d01);
    assert_eq!(data.guest_vmcb.control_area.event_inj, 0x8000_0b0d);

    // A write of 0 clears SVME too.
    let mut data = ProcessorData::new();
    data.guest_vmcb.control_area.exit_info1 = 1;
    let mut r = regs(0, 0xC000_0080, 0);
    handle_msr(&mut data, &mut r);
    assert_eq!(data.guest_vmcb.control_area.event_inj, 0x8000_0b0d);

    // A write that keeps SVME set is kept in the save area, with no #GP.
    let mut data = ProcessorData::new();
    data.guest_vmcb.control_area.exit_info1 = 1;
    let mut r = regs(0x1d01, 0xC000_0080, 0);
    let (_, access) = handle_msr(&mut data, &mut r);
    assert_eq!(access, MsrAccess::Nothing);
    assert_eq!(data.guest_vmcb.save_area.efer, 0x1d01);
    assert_eq!(data.guest_vmcb.control_area.event_inj, 0);

    // Other writes and reads go to the processor.
    let mut data = ProcessorData::new();
    data.guest_vmcb.control_area.exit_info1 = 1;
    let mut r = regs(0x2, 0x10, 0x1);
    let (_, access) = handle_msr(&mut data, &mut r);
    assert_eq!(access, MsrAccess::Write { msr: 0x10, value: 0x1_0000_0002 });
    let mut data = ProcessorData::new();
    let mut r = regs(0, 0x10, 0);
    let (_, access) = handle_msr(&mut data, &mut r);
    assert_eq!(access, MsrAccess::Read { msr: 0x10 });
    complete_msr_read(&mut r, 0xaaaa_bbbb_cccc_dddd);
    assert_eq!(r.rax, 0xcccc_dddd);
    assert_eq!(r.rdx, 0xaaaa_bbbb);
}

#[test]
fn exit_readiness_checks() {
    assert!(is_handled_exit(0x72));
    assert!(is_handled_exit(0x400));
    assert!(!is_handled_exit(0x60));
    let mut data = ProcessorData::new();
    // A read of EFER cannot be handled, a write can.
    assert!(!msr_ready(&data, &regs(0, 0xC000_0080, 0)));
    data.guest_vmcb.control_area.exit_info1 = 1;
    assert!(msr_ready(&data, &regs(0, 0xC000_0080, 0)));
    data.guest_vmcb.control_area.exit_info1 = 0;
    assert!(msr_ready(&data, &regs(0, 0x10, 0)));
}
