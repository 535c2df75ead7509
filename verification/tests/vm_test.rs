use amd_hypervisor::svm::vmexit::cpuid::CpuIdResult;
use amd_hypervisor::vm_test::{
    check_all, check_aperf, check_efer_msr, check_hsave_msr, check_mperf, check_rdtsc_cpuid_rdtsc,
    check_rdtsc_msr, check_rdtsc_rdtsc, cpuid_hv_status, reserved_cpuid_2_status,
    reserved_cpuid_status, HvMeasurements, HvStatus, RUNS,
};

fn samples(delta: u64) -> Vec<(u64, u64)> {
    (0..RUNS).map(|i| (i * 1000, i * 1000 + delta)).collect()
}

#[test]
fn rdtsc_checks_accept_25_to_500_ticks() {
    assert_eq!(check_rdtsc_cpuid_rdtsc(&samples(100)), HvStatus::HypervisorNotPresent);
    assert_eq!(check_rdtsc_cpuid_rdtsc(&samples(25)), HvStatus::HypervisorNotPresent);
    assert_eq!(check_rdtsc_cpuid_rdtsc(&samples(500)), HvStatus::HypervisorNotPresent);
    assert_eq!(check_rdtsc_cpuid_rdtsc(&samples(24)), HvStatus::HypervisorPresent);
    assert_eq!(check_rdtsc_cpuid_rdtsc(&samples(501)), HvStatus::HypervisorPresent);
    assert_eq!(check_rdtsc_rdtsc(&samples(2000)), HvStatus::HypervisorPresent);
    assert_eq!(check_rdtsc_msr(&samples(30)), HvStatus::HypervisorNotPresent);
}

#[test]
fn rdtsc_check_averages_over_the_runs() {
    // One run of 1337 * 600 ticks, all others 0: the average is 600.
    let mut s = samples(0);
    s[5] = (0, RUNS * 600);
    assert_eq!(check_rdtsc_cpuid_rdtsc(&s), HvStatus::HypervisorPresent);
    // One run of 1337 * 100 ticks: the average is 100.
    s[5] = (0, RUNS * 100);
    assert_eq!(check_rdtsc_cpuid_rdtsc(&s), HvStatus::HypervisorNotPresent);
    // The average rounds down: 1337 * 25 - 1 ticks in total is below 25.
    s[5] = (0, RUNS * 25 - 1);
    assert_eq!(check_rdtsc_cpuid_rdtsc(&s), HvStatus::HypervisorPresent);
}

#[test]
fn mperf_check_accepts_0xc_to_0xff() {
    assert_eq!(check_mperf(&samples(0xc)), HvStatus::HypervisorNotPresent);
    assert_eq!(check_mperf(&samples(0xff)), HvStatus::HypervisorNotPresent);
    assert_eq!(check_mperf(&samples(0xb)), HvStatus::HypervisorPresent);
    assert_eq!(check_mperf(&samples(0x100)), HvStatus::HypervisorPresent);
}

#[test]
fn aperf_check_shifts_the_readings() {
    // A difference of 0x100 in the low half becomes 0x100 << 32 = 0x100_0000_0000,
    // above 0xFFF0000000.
    assert_eq!(check_aperf(&samples(0x100)), HvStatus::HypervisorPresent);
    // A difference of 1 becomes 0x1_0000_0000, inside the range.
    assert_eq!(check_aperf(&samples(1)), HvStatus::HypervisorNotPresent);
    // The high half of a reading is lost in the shift.
    let s: Vec<(u64, u64)> = (0..RUNS).map(|_| (0x7_0000_0000, 0x9_0000_0001)).collect();
    assert_eq!(check_aperf(&s), HvStatus::HypervisorNotPresent);
    // No difference at all is below the range.
    assert_eq!(check_aperf(&samples(0)), HvStatus::HypervisorPresent);
}

#[test]
fn msr_checks() {
    assert_eq!(check_hsave_msr(0), HvStatus::HypervisorNotPresent);
    assert_eq!(check_hsave_msr(0x1000), HvStatus::HypervisorPresent);
    assert_eq!(check_efer_msr(0xd01), HvStatus::HypervisorNotPresent);
    assert_eq!(check_efer_msr(0x1d01), HvStatus::HypervisorPresent);
}

#[test]
fn cpuid_checks() {
    let a = CpuIdResult { eax: 1, ebx: 2, ecx: 3, edx: 4 };
    let b = CpuIdResult { eax: 1, ebx: 2, ecx: 3, edx: 5 };
    assert_eq!(reserved_cpuid_status(a, a), HvStatus::HypervisorNotPresent);
    assert_eq!(reserved_cpuid_status(a, b), HvStatus::HypervisorPresent);
    assert_eq!(reserved_cpuid_2_status(b, b), HvStatus::HypervisorNotPresent);
    assert_eq!(reserved_cpuid_2_status(b, a), HvStatus::HypervisorPresent);
    assert_eq!(cpuid_hv_status(CpuIdResult { eax: 0, ebx: 0, ecx: 0x8000_0000, edx: 0 }), HvStatus::HypervisorPresent);
    assert_eq!(cpuid_hv_status(CpuIdResult { eax: 0, ebx: 0, ecx: 0x7fff_ffff, edx: 0 }), HvStatus::HypervisorNotPresent);
}

#[test]
fn check_all_reports_each_check() {
    let m = HvMeasurements {
        rdtsc: samples(100),
        rdtsc_msr: samples(1000),
        mperf: samples(0x20),
        aperf: samples(1),
        hsave: 0,
        efer: 0x1000,
    };
    let r = check_all(&m);
    assert_eq!(r.rdtsc, HvStatus::HypervisorNotPresent);
    assert_eq!(r.rdtsc_msr, HvStatus::HypervisorPresent);
    assert_eq!(r.mperf, HvStatus::HypervisorNotPresent);
    assert_eq!(r.aperf, HvStatus::HypervisorNotPresent);
    assert_eq!(r.hsave_msr, HvStatus::HypervisorNotPresent);
    assert_eq!(r.efer_msr, HvStatus::HypervisorPresent);
}
