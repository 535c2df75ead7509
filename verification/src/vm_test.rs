//! Checks whether a hypervisor is installed below the running system: CPUID
//! leaves only a hypervisor answers, how long CPUID takes, and MSRs that a
//! hypervisor sets.
use vstd::prelude::*;

use crate::svm::msr_bitmap::EFER_SVME;
use crate::svm::vmexit::cpuid::{cpuid_outcome, native_cpuid, CpuIdResult};

verus! {

/// Whether a check found a hypervisor.
#[derive(Debug, Clone, Copy, PartialEq, Eq, Structural)]
pub enum HvStatus {
    HypervisorPresent,
    HypervisorNotPresent,
}

/// `HypervisorPresent` when `found` holds.
pub open spec fn present_if(found: bool) -> HvStatus {
    if found {
        HvStatus::HypervisorPresent
    } else {
        HvStatus::HypervisorNotPresent
    }
}

fn status(found: bool) -> (r: HvStatus)
    ensures
        r == present_if(found),
{
    if found {
        HvStatus::HypervisorPresent
    } else {
        HvStatus::HypervisorNotPresent
    }
}

/// How many measurements each timing check averages.
pub const RUNS: u64 = 1337;

/// A leaf no processor defines.
pub const INVALID_CPUID_LEAF: u32 = 0x1337_1337;

/// The leaf a hypervisor reports its vendor and capabilities in.
pub const RESERVED_CPUID_LEAF: u32 = 0x4000_0000;

/// The MSR of the actual performance frequency clock count.
pub const APERF_MSR: u32 = 0xE8;

/// The MSR the maximum performance frequency check reads (the same number
/// as the actual performance counter).
pub const MPERF_MSR: u32 = 0xE8;

/// The sum of the differences `second - first` of the samples.
pub open spec fn sum_deltas(s: Seq<(u64, u64)>) -> int
    decreases s.len(),
{
    if s.len() == 0 {
        0
    } else {
        sum_deltas(s.drop_last()) + (s.last().1 - s.last().0)
    }
}

/// Every sample's second reading is at least its first.
pub open spec fn deltas_nonnegative(s: Seq<(u64, u64)>) -> bool {
    forall|i: int| 0 <= i < s.len() ==> #[trigger] s[i].0 <= s[i].1
}

/// The samples a timing check accepts: one per run, no reading going
/// backwards and a sum of differences that fits in 64 bits.
pub open spec fn timing_samples_ok(s: Seq<(u64, u64)>) -> bool {
    &&& s.len() == RUNS
    &&& deltas_nonnegative(s)
    &&& sum_deltas(s) <= u64::MAX
}

/// The average difference of the samples, over `RUNS` runs.
pub open spec fn average_delta_spec(s: Seq<(u64, u64)>) -> int {
    sum_deltas(s) / (RUNS as int)
}

proof fn lemma_sum_prefix_le(s: Seq<(u64, u64)>, j: int)
    requires
        0 <= j <= s.len(),
        deltas_nonnegative(s),
    ensures
        sum_deltas(s.take(j)) <= sum_deltas(s),
    decreases s.len() - j,
{
    if j == s.len() {
        assert(s.take(j) =~= s);
    } else {
        lemma_sum_prefix_le(s, j + 1);
        assert(s.take(j + 1).drop_last() =~= s.take(j));
        assert(s[j].0 <= s[j].1);
    }
}

/// The average of `second - first` over the samples, divided by `RUNS`.
fn average_delta(samples: &Vec<(u64, u64)>) -> (r: u64)
    requires
        timing_samples_ok(samples@),
    ensures
        r == average_delta_spec(samples@),
{
    let mut avg: u64 = 0;
    let mut i: usize = 0;
    while i < samples.len()
        invariant
            i <= samples@.len(),
            timing_samples_ok(samples@),
            avg == sum_deltas(samples@.take(i as int)),
        decreases samples@.len() - i,
    {
        let (tick_1, tick_2) = samples[i];
        proof {
            lemma_sum_prefix_le(samples@, i + 1);
            assert(samples@.take(i + 1).drop_last() =~= samples@.take(i as int));
            assert(samples@[i as int].0 <= samples@[i as int].1);
        }
        avg = avg + (tick_2 - tick_1);
        i = i + 1;
    }
    assert(samples@.take(samples@.len() as int) =~= samples@);
    avg / RUNS
}

/// `HypervisorPresent` when two CPUID answers differ.
pub open spec fn differing_answers(a: CpuIdResult, b: CpuIdResult) -> HvStatus {
    present_if(a != b)
}

/// Whether the hypervisor vendor leaf answers anything else than a leaf no
/// processor defines, `invalid`; `reserved` is the vendor leaf's answer.
pub fn reserved_cpuid_status(invalid: CpuIdResult, reserved: CpuIdResult) -> (r: HvStatus)
    ensures
        r == differing_answers(invalid, reserved),
{
    status(invalid != reserved)
}

/// Compares the answer to an undefined leaf with that to the hypervisor
/// vendor leaf: a processor without hypervisor answers both alike.
pub fn check_reserved_cpuid() -> (r: HvStatus)
    ensures
        exists|a: CpuIdResult, b: CpuIdResult|
            #![trigger cpuid_outcome(INVALID_CPUID_LEAF, 0, a), cpuid_outcome(RESERVED_CPUID_LEAF, 0, b)]
            cpuid_outcome(INVALID_CPUID_LEAF, 0, a) && cpuid_outcome(RESERVED_CPUID_LEAF, 0, b)
                && r == differing_answers(a, b),
{
    let invalid_cpuid = native_cpuid(INVALID_CPUID_LEAF, 0);
    let reserved_cpuid = native_cpuid(RESERVED_CPUID_LEAF, 0);
    reserved_cpuid_status(invalid_cpuid, reserved_cpuid)
}

/// Whether the hypervisor vendor leaf, `hv_leaf`, answers anything else
/// than the highest standard leaf, `highest_leaf`: a processor answers a
/// leaf above its highest with the highest one.
pub fn reserved_cpuid_2_status(hv_leaf: CpuIdResult, highest_leaf: CpuIdResult) -> (r: HvStatus)
    ensures
        r == differing_answers(hv_leaf, highest_leaf),
{
    status(hv_leaf != highest_leaf)
}

/// Compares the hypervisor vendor leaf with the highest standard leaf (the
/// EAX of leaf 0).
pub fn check_reserved_cpuid_2() -> (r: HvStatus)
    ensures
        exists|a: CpuIdResult, z: CpuIdResult, b: CpuIdResult|
            #![trigger cpuid_outcome(RESERVED_CPUID_LEAF, 0, a), cpuid_outcome(0, 0, z), cpuid_outcome(z.eax, 0, b)]
            cpuid_outcome(RESERVED_CPUID_LEAF, 0, a) && cpuid_outcome(0, 0, z) && cpuid_outcome(
                z.eax,
                0,
                b,
            ) && r == differing_answers(a, b),
{
    let cpuid_0 = native_cpuid(RESERVED_CPUID_LEAF, 0);
    let leaf_0 = native_cpuid(0, 0);
    let highest = leaf_0.eax;
    let cpuid_1 = native_cpuid(highest, 0);
    reserved_cpuid_2_status(cpuid_0, cpuid_1)
}

/// Whether the hypervisor present bit (bit 31 of ECX) of the feature leaf,
/// `features`, is set.
pub fn cpuid_hv_status(features: CpuIdResult) -> (r: HvStatus)
    ensures
        r == cpuid_hv_status_spec(features),
{
    status((features.ecx >> 31) & 1 == 1)
}

/// Reads the hypervisor present bit of the feature leaf.
pub fn check_cpuid_hv() -> (r: HvStatus)
    ensures
        exists|c: CpuIdResult| #[trigger] cpuid_outcome(1, 0, c) && r == cpuid_hv_status_spec(c),
{
    let result = native_cpuid(1, 0);
    cpuid_hv_status(result)
}

/// Only the hypervisor present bit of ECX decides: the status is
/// `HypervisorPresent` exactly when ECX is at least 0x8000_0000, that is
/// when its bit 31 is set, whatever its other bits and the other registers
/// are; so two feature leaves that agree in that bit get the same status.
pub proof fn lemma_cpuid_hv_status_bit(features: CpuIdResult, other: CpuIdResult)
    ensures
        (cpuid_hv_status_spec(features) == HvStatus::HypervisorPresent) == (features.ecx
            >= 0x8000_0000u32),
        (features.ecx >= 0x8000_0000u32) == (other.ecx >= 0x8000_0000u32) ==> cpuid_hv_status_spec(
            features,
        ) == cpuid_hv_status_spec(other),
{
    let a = features.ecx;
    let b = other.ecx;
    assert((((a >> 31u32) & 1 == 1) == (a >= 0x8000_0000u32)) && (((b >> 31u32) & 1 == 1) == (b
        >= 0x8000_0000u32))) by (bit_vector);
}

/// What `cpuid_hv_status` returns.
pub open spec fn cpuid_hv_status_spec(features: CpuIdResult) -> HvStatus {
    present_if((features.ecx >> 31u32) & 1 == 1)
}

/// Whether an average duration lies outside `low..=high`.
pub open spec fn out_of_range(avg: int, low: int, high: int) -> bool {
    !(low <= avg <= high)
}

/// Times RDTSC around CPUID: `samples` are the counter before and after
/// CPUID leaf 0, one pair per run. An average outside 25 to 500 ticks means
/// that CPUID exits to a hypervisor.
pub fn check_rdtsc_cpuid_rdtsc(samples: &Vec<(u64, u64)>) -> (r: HvStatus)
    requires
        timing_samples_ok(samples@),
    ensures
        r == present_if(out_of_range(average_delta_spec(samples@), 25, 500)),
{
    let avg = average_delta(samples);
    status(!(25 <= avg && avg <= 500))
}

/// Times two RDTSC in a row: `samples` are the two counter values, one pair
/// per run. An average outside 25 to 500 ticks means that RDTSC exits.
pub fn check_rdtsc_rdtsc(samples: &Vec<(u64, u64)>) -> (r: HvStatus)
    requires
        timing_samples_ok(samples@),
    ensures
        r == present_if(out_of_range(average_delta_spec(samples@), 25, 500)),
{
    let avg = average_delta(samples);
    status(!(25 <= avg && avg <= 500))
}

/// Times CPUID with the time-stamp counter MSR: `samples` are the MSR
/// before and after CPUID leaf 0, one pair per run. An average outside 25
/// to 500 ticks means a hypervisor.
pub fn check_rdtsc_msr(samples: &Vec<(u64, u64)>) -> (r: HvStatus)
    requires
        timing_samples_ok(samples@),
    ensures
        r == present_if(out_of_range(average_delta_spec(samples@), 25, 500)),
{
    let avg = average_delta(samples);
    status(!(25 <= avg && avg <= 500))
}

/// A reading of the actual performance counter as the check uses it:
/// shifted 32 bits to the left, the high half lost.
pub open spec fn aperf_shifted(v: u64) -> u64 {
    ((v % 0x1_0000_0000) * 0x1_0000_0000) as u64
}

/// The samples with both readings shifted as `aperf_shifted` does.
pub open spec fn aperf_samples(s: Seq<(u64, u64)>) -> Seq<(u64, u64)> {
    s.map_values(|p: (u64, u64)| (aperf_shifted(p.0), aperf_shifted(p.1)))
}

/// Times CPUID with the actual performance counter: `samples` are the MSR
/// before and after CPUID leaf 0, one pair per run, each shifted 32 bits
/// to the left before the difference. An average outside 0xBE30000 to
/// 0xFFF0000000 means a hypervisor.
pub fn check_aperf(samples: &Vec<(u64, u64)>) -> (r: HvStatus)
    requires
        timing_samples_ok(aperf_samples(samples@)),
    ensures
        r == present_if(
            out_of_range(average_delta_spec(aperf_samples(samples@)), 0xBE30000, 0xFFF0000000),
        ),
{
    let mut shifted: Vec<(u64, u64)> = Vec::new();
    let mut i: usize = 0;
    while i < samples.len()
        invariant
            i <= samples@.len(),
            shifted@ == aperf_samples(samples@).take(i as int),
        decreases samples@.len() - i,
    {
        let (tick_1, tick_2) = samples[i];
        assert(tick_1 << 32u64 == aperf_shifted(tick_1) && tick_2 << 32u64 == aperf_shifted(tick_2))
            by (bit_vector);
        shifted.push((tick_1 << 32, tick_2 << 32));
        i = i + 1;
        assert(shifted@ =~= aperf_samples(samples@).take(i as int));
    }
    assert(shifted@ =~= aperf_samples(samples@));
    let avg = average_delta(&shifted);
    status(!(0xBE30000 <= avg && avg <= 0xFFF0000000))
}

/// Times CPUID with the maximum performance counter: `samples` are the MSR
/// before and after CPUID leaf 0, one pair per run. An average outside 0xC
/// to 0xFF means a hypervisor.
pub fn check_mperf(samples: &Vec<(u64, u64)>) -> (r: HvStatus)
    requires
        timing_samples_ok(samples@),
    ensures
        r == present_if(out_of_range(average_delta_spec(samples@), 0xc, 0xff)),
{
    let avg = average_delta(samples);
    status(!(0xc <= avg && avg <= 0xff))
}

/// The host save area address MSR, `value`, is 0 unless a hypervisor set
/// it.
pub fn check_hsave_msr(value: u64) -> (r: HvStatus)
    ensures
        r == present_if(value != 0),
{
    status(value != 0)
}

/// SVM is enabled in EFER, `value`, only when a hypervisor runs.
pub fn check_efer_msr(value: u64) -> (r: HvStatus)
    ensures
        r == present_if(value & EFER_SVME != 0),
{
    status(value & EFER_SVME != 0)
}

/// What the timing and MSR checks measured on the processor.
pub struct HvMeasurements {
    /// RDTSC before and after CPUID, one pair per run.
    pub rdtsc: Vec<(u64, u64)>,
    /// The time-stamp counter MSR before and after CPUID.
    pub rdtsc_msr: Vec<(u64, u64)>,
    /// The maximum performance counter before and after CPUID.
    pub mperf: Vec<(u64, u64)>,
    /// The actual performance counter before and after CPUID.
    pub aperf: Vec<(u64, u64)>,
    /// The host save area address MSR.
    pub hsave: u64,
    /// The EFER MSR.
    pub efer: u64,
}

/// What each check found.
#[derive(Debug, Clone, Copy, PartialEq, Eq, Structural)]
pub struct HvReport {
    pub reserved_cpuid: HvStatus,
    pub reserved_cpuid_2: HvStatus,
    pub cpuid_hv: HvStatus,
    pub rdtsc: HvStatus,
    pub rdtsc_msr: HvStatus,
    pub mperf: HvStatus,
    pub aperf: HvStatus,
    pub hsave_msr: HvStatus,
    pub efer_msr: HvStatus,
}

/// Runs every check, in the order they are reported: the three CPUID checks
/// on this processor, then the timing and MSR checks on `m`.
pub fn check_all(m: &HvMeasurements) -> (r: HvReport)
    requires
        timing_samples_ok(m.rdtsc@),
        timing_samples_ok(m.rdtsc_msr@),
        timing_samples_ok(m.mperf@),
        timing_samples_ok(aperf_samples(m.aperf@)),
    ensures
        exists|a: CpuIdResult, b: CpuIdResult|
            #![trigger cpuid_outcome(INVALID_CPUID_LEAF, 0, a), cpuid_outcome(RESERVED_CPUID_LEAF, 0, b)]
            cpuid_outcome(INVALID_CPUID_LEAF, 0, a) && cpuid_outcome(RESERVED_CPUID_LEAF, 0, b)
                && r.reserved_cpuid == differing_answers(a, b),
        exists|a: CpuIdResult, z: CpuIdResult, b: CpuIdResult|
            #![trigger cpuid_outcome(RESERVED_CPUID_LEAF, 0, a), cpuid_outcome(0, 0, z), cpuid_outcome(z.eax, 0, b)]
            cpuid_outcome(RESERVED_CPUID_LEAF, 0, a) && cpuid_outcome(0, 0, z) && cpuid_outcome(
                z.eax,
                0,
                b,
            ) && r.reserved_cpuid_2 == differing_answers(a, b),
        exists|c: CpuIdResult| #[trigger] cpuid_outcome(1, 0, c) && r.cpuid_hv == cpuid_hv_status_spec(c),
        r.rdtsc == present_if(out_of_range(average_delta_spec(m.rdtsc@), 25, 500)),
        r.rdtsc_msr == present_if(out_of_range(average_delta_spec(m.rdtsc_msr@), 25, 500)),
        r.mperf == present_if(out_of_range(average_delta_spec(m.mperf@), 0xc, 0xff)),
        r.aperf == present_if(
            out_of_range(average_delta_spec(aperf_samples(m.aperf@)), 0xBE30000, 0xFFF0000000),
        ),
        r.hsave_msr == present_if(m.hsave != 0),
        r.efer_msr == present_if(m.efer & EFER_SVME != 0),
{
    HvReport {
        reserved_cpuid: check_reserved_cpuid(),
        reserved_cpuid_2: check_reserved_cpuid_2(),
        cpuid_hv: check_cpuid_hv(),
        rdtsc: check_rdtsc_cpuid_rdtsc(&m.rdtsc),
        rdtsc_msr: check_rdtsc_msr(&m.rdtsc_msr),
        mperf: check_mperf(&m.mperf),
        aperf: check_aperf(&m.aperf),
        hsave_msr: check_hsave_msr(m.hsave),
        efer_msr: check_efer_msr(m.efer),
    }
}

} // verus!
