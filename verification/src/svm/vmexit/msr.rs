//! The MSR handler.
use vstd::prelude::*;

use crate::svm::data::guest::GuestRegisters;
use crate::svm::data::processor::ProcessorData;
use crate::svm::events::EventInjection;
use crate::svm::msr_bitmap::{EFER_SVME, IA32_EFER};
use crate::svm::vmcb::control_area::ControlArea;
use crate::svm::vmcb::save_area::SaveArea;
use crate::svm::vmcb::Vmcb;
use crate::svm::vmexit::ExitType;

verus! {

/// The MSRs of the Open-Source Register Reference for AMD CPUs (`Memory
/// Map - MSR`).
pub open spec fn valid_msr_spec(msr: u32) -> bool {
    ||| 0x0000_0000 <= msr <= 0x0000_0001
    ||| 0x0000_0010 <= msr <= 0x0000_02FF
    ||| 0x0000_0400 <= msr <= 0x0000_0403
    ||| 0x0000_0404 <= msr <= 0x0000_0407
    ||| 0x0000_0408 <= msr <= 0x0000_040B
    ||| 0x0000_040C <= msr <= 0x0000_040F
    ||| 0x0000_0414 <= msr <= 0x0000_0417
    ||| 0x0000_0418 <= msr <= 0x0000_041B
    ||| 0x0000_041C <= msr <= 0x0000_043B
    ||| 0x0000_043C <= msr <= 0x0000_0443
    ||| 0x0000_044C <= msr <= 0x0000_044F
    ||| 0x0000_0450 <= msr <= 0x0000_0457
    ||| 0x0000_0458 <= msr <= 0x0000_045B
    ||| 0xC000_0080 <= msr <= 0xC000_0410
    ||| 0xC000_2000 <= msr <= 0xC000_2009
    ||| 0xC000_2010 <= msr <= 0xC000_2016
    ||| 0xC000_2020 <= msr <= 0xC000_2029
    ||| 0xC000_2030 <= msr <= 0xC000_2036
    ||| 0xC000_2040 <= msr <= 0xC000_2049
    ||| 0xC000_2050 <= msr <= 0xC000_2056
    ||| 0xC000_2060 <= msr <= 0xC000_2066
    ||| 0xC000_2070 <= msr <= 0xC000_20E9
    ||| 0xC000_20F0 <= msr <= 0xC000_210A
    ||| 0xC000_2130 <= msr <= 0xC000_2136
    ||| 0xC000_2140 <= msr <= 0xC000_2159
    ||| 0xC000_2160 <= msr <= 0xC000_2169
    ||| 0xC001_0000 <= msr <= 0xC001_029B
    ||| 0xC001_0400 <= msr <= 0xC001_0406
    ||| 0xC001_0407 <= msr <= 0xC001_040E
    ||| 0xC001_0413 <= msr <= 0xC001_0416
    ||| 0xC001_1002 <= msr <= 0xC001_103C
}

/// Range `i` (0 to 30) of the memory map of the AMD Open-Source Register
/// Reference, as its first and last MSR.
pub open spec fn reference_msr_range(i: int) -> (u32, u32) {
    if i == 0 {
        (0x0000_0000, 0x0000_0001)
    } else if i == 1 {
        (0x0000_0010, 0x0000_02FF)
    } else if i == 2 {
        (0x0000_0400, 0x0000_0403)
    } else if i == 3 {
        (0x0000_0404, 0x0000_0407)
    } else if i == 4 {
        (0x0000_0408, 0x0000_040B)
    } else if i == 5 {
        (0x0000_040C, 0x0000_040F)
    } else if i == 6 {
        (0x0000_0414, 0x0000_0417)
    } else if i == 7 {
        (0x0000_0418, 0x0000_041B)
    } else if i == 8 {
        (0x0000_041C, 0x0000_043B)
    } else if i == 9 {
        (0x0000_043C, 0x0000_0443)
    } else if i == 10 {
        (0x0000_044C, 0x0000_044F)
    } else if i == 11 {
        (0x0000_0450, 0x0000_0457)
    } else if i == 12 {
        (0x0000_0458, 0x0000_045B)
    } else if i == 13 {
        (0xC000_0080, 0xC000_0410)
    } else if i == 14 {
        (0xC000_2000, 0xC000_2009)
    } else if i == 15 {
        (0xC000_2010, 0xC000_2016)
    } else if i == 16 {
        (0xC000_2020, 0xC000_2029)
    } else if i == 17 {
        (0xC000_2030, 0xC000_2036)
    } else if i == 18 {
        (0xC000_2040, 0xC000_2049)
    } else if i == 19 {
        (0xC000_2050, 0xC000_2056)
    } else if i == 20 {
        (0xC000_2060, 0xC000_2066)
    } else if i == 21 {
        (0xC000_2070, 0xC000_20E9)
    } else if i == 22 {
        (0xC000_20F0, 0xC000_210A)
    } else if i == 23 {
        (0xC000_2130, 0xC000_2136)
    } else if i == 24 {
        (0xC000_2140, 0xC000_2159)
    } else if i == 25 {
        (0xC000_2160, 0xC000_2169)
    } else if i == 26 {
        (0xC001_0000, 0xC001_029B)
    } else if i == 27 {
        (0xC001_0400, 0xC001_0406)
    } else if i == 28 {
        (0xC001_0407, 0xC001_040E)
    } else if i == 29 {
        (0xC001_0413, 0xC001_0416)
    } else if i == 30 {
        (0xC001_1002, 0xC001_103C)
    } else {
        (1, 0)
    }
}

/// Whether the MSR lies in one of the ranges of the reference's memory map.
pub open spec fn in_reference_map(msr: u32) -> bool {
    exists|i: int| 0 <= i < 31 && #[trigger] reference_msr_range(i).0 <= msr <= reference_msr_range(i).1
}

/// An MSR is valid exactly when it lies in one of the ranges of the AMD
/// Open-Source Register Reference memory map: every MSR of every range is
/// accepted, and no MSR outside them.
pub proof fn lemma_valid_msr_ranges(msr: u32)
    ensures
        valid_msr_spec(msr) == in_reference_map(msr),
{
    if 0x0000_0000 <= msr && msr <= 0x0000_0001 {
        assert(reference_msr_range(0).0 <= msr <= reference_msr_range(0).1);
    } else if 0x0000_0010 <= msr && msr <= 0x0000_02FF {
        assert(reference_msr_range(1).0 <= msr <= reference_msr_range(1).1);
    } else if 0x0000_0400 <= msr && msr <= 0x0000_0403 {
        assert(reference_msr_range(2).0 <= msr <= reference_msr_range(2).1);
    } else if 0x0000_0404 <= msr && msr <= 0x0000_0407 {
        assert(reference_msr_range(3).0 <= msr <= reference_msr_range(3).1);
    } else if 0x0000_0408 <= msr && msr <= 0x0000_040B {
        assert(reference_msr_range(4).0 <= msr <= reference_msr_range(4).1);
    } else if 0x0000_040C <= msr && msr <= 0x0000_040F {
        assert(reference_msr_range(5).0 <= msr <= reference_msr_range(5).1);
    } else if 0x0000_0414 <= msr && msr <= 0x0000_0417 {
        assert(reference_msr_range(6).0 <= msr <= reference_msr_range(6).1);
    } else if 0x0000_0418 <= msr && msr <= 0x0000_041B {
        assert(reference_msr_range(7).0 <= msr <= reference_msr_range(7).1);
    } else if 0x0000_041C <= msr && msr <= 0x0000_043B {
        assert(reference_msr_range(8).0 <= msr <= reference_msr_range(8).1);
    } else if 0x0000_043C <= msr && msr <= 0x0000_0443 {
        assert(reference_msr_range(9).0 <= msr <= reference_msr_range(9).1);
    } else if 0x0000_044C <= msr && msr <= 0x0000_044F {
        assert(reference_msr_range(10).0 <= msr <= reference_msr_range(10).1);
    } else if 0x0000_0450 <= msr && msr <= 0x0000_0457 {
        assert(reference_msr_range(11).0 <= msr <= reference_msr_range(11).1);
    } else if 0x0000_0458 <= msr && msr <= 0x0000_045B {
        assert(reference_msr_range(12).0 <= msr <= reference_msr_range(12).1);
    } else if 0xC000_0080 <= msr && msr <= 0xC000_0410 {
        assert(reference_msr_range(13).0 <= msr <= reference_msr_range(13).1);
    } else if 0xC000_2000 <= msr && msr <= 0xC000_2009 {
        assert(reference_msr_range(14).0 <= msr <= reference_msr_range(14).1);
    } else if 0xC000_2010 <= msr && msr <= 0xC000_2016 {
        assert(reference_msr_range(15).0 <= msr <= reference_msr_range(15).1);
    } else if 0xC000_2020 <= msr && msr <= 0xC000_2029 {
        assert(reference_msr_range(16).0 <= msr <= reference_msr_range(16).1);
    } else if 0xC000_2030 <= msr && msr <= 0xC000_2036 {
        assert(reference_msr_range(17).0 <= msr <= reference_msr_range(17).1);
    } else if 0xC000_2040 <= msr && msr <= 0xC000_2049 {
        assert(reference_msr_range(18).0 <= msr <= reference_msr_range(18).1);
    } else if 0xC000_2050 <= msr && msr <= 0xC000_2056 {
        assert(reference_msr_range(19).0 <= msr <= reference_msr_range(19).1);
    } else if 0xC000_2060 <= msr && msr <= 0xC000_2066 {
        assert(reference_msr_range(20).0 <= msr <= reference_msr_range(20).1);
    } else if 0xC000_2070 <= msr && msr <= 0xC000_20E9 {
        assert(reference_msr_range(21).0 <= msr <= reference_msr_range(21).1);
    } else if 0xC000_20F0 <= msr && msr <= 0xC000_210A {
        assert(reference_msr_range(22).0 <= msr <= reference_msr_range(22).1);
    } else if 0xC000_2130 <= msr && msr <= 0xC000_2136 {
        assert(reference_msr_range(23).0 <= msr <= reference_msr_range(23).1);
    } else if 0xC000_2140 <= msr && msr <= 0xC000_2159 {
        assert(reference_msr_range(24).0 <= msr <= reference_msr_range(24).1);
    } else if 0xC000_2160 <= msr && msr <= 0xC000_2169 {
        assert(reference_msr_range(25).0 <= msr <= reference_msr_range(25).1);
    } else if 0xC001_0000 <= msr && msr <= 0xC001_029B {
        assert(reference_msr_range(26).0 <= msr <= reference_msr_range(26).1);
    } else if 0xC001_0400 <= msr && msr <= 0xC001_0406 {
        assert(reference_msr_range(27).0 <= msr <= reference_msr_range(27).1);
    } else if 0xC001_0407 <= msr && msr <= 0xC001_040E {
        assert(reference_msr_range(28).0 <= msr <= reference_msr_range(28).1);
    } else if 0xC001_0413 <= msr && msr <= 0xC001_0416 {
        assert(reference_msr_range(29).0 <= msr <= reference_msr_range(29).1);
    } else if 0xC001_1002 <= msr && msr <= 0xC001_103C {
        assert(reference_msr_range(30).0 <= msr <= reference_msr_range(30).1);
    }
    if in_reference_map(msr) {
        let i = choose|i: int| 0 <= i < 31 && #[trigger] reference_msr_range(i).0 <= msr <= reference_msr_range(i).1;
        assert(valid_msr_spec(msr));
    }
}

/// Checks whether the specified MSR is in the Open-Source Register
/// Reference for AMD CPUs.
pub fn is_valid_msr(msr: u32) -> (r: bool)
    ensures
        r == valid_msr_spec(msr),
{
    (0x0000_0000 <= msr && msr <= 0x0000_0001) || (0x0000_0010 <= msr && msr <= 0x0000_02FF)
        || (0x0000_0400 <= msr && msr <= 0x0000_0403) || (0x0000_0404 <= msr && msr
        <= 0x0000_0407) || (0x0000_0408 <= msr && msr <= 0x0000_040B) || (0x0000_040C <= msr
        && msr <= 0x0000_040F) || (0x0000_0414 <= msr && msr <= 0x0000_0417) || (0x0000_0418
        <= msr && msr <= 0x0000_041B) || (0x0000_041C <= msr && msr <= 0x0000_043B) || (
    0x0000_043C <= msr && msr <= 0x0000_0443) || (0x0000_044C <= msr && msr <= 0x0000_044F)
        || (0x0000_0450 <= msr && msr <= 0x0000_0457) || (0x0000_0458 <= msr && msr
        <= 0x0000_045B) || (0xC000_0080 <= msr && msr <= 0xC000_0410) || (0xC000_2000 <= msr
        && msr <= 0xC000_2009) || (0xC000_2010 <= msr && msr <= 0xC000_2016) || (0xC000_2020
        <= msr && msr <= 0xC000_2029) || (0xC000_2030 <= msr && msr <= 0xC000_2036) || (
    0xC000_2040 <= msr && msr <= 0xC000_2049) || (0xC000_2050 <= msr && msr <= 0xC000_2056)
        || (0xC000_2060 <= msr && msr <= 0xC000_2066) || (0xC000_2070 <= msr && msr
        <= 0xC000_20E9) || (0xC000_20F0 <= msr && msr <= 0xC000_210A) || (0xC000_2130 <= msr
        && msr <= 0xC000_2136) || (0xC000_2140 <= msr && msr <= 0xC000_2159) || (0xC000_2160
        <= msr && msr <= 0xC000_2169) || (0xC001_0000 <= msr && msr <= 0xC001_029B) || (
    0xC001_0400 <= msr && msr <= 0xC001_0406) || (0xC001_0407 <= msr && msr <= 0xC001_040E)
        || (0xC001_0413 <= msr && msr <= 0xC001_0416) || (0xC001_1002 <= msr && msr
        <= 0xC001_103C)
}

/// The MSR access the hypervisor performs for the guest after a handled
/// MSR exit.
#[derive(Debug, Clone, Copy, PartialEq, Eq, Structural)]
pub enum MsrAccess {
    /// Nothing to do.
    Nothing,
    /// Write `value` to the MSR.
    Write { msr: u32, value: u64 },
    /// Read the MSR and hand the value to `complete_msr_read`.
    Read { msr: u32 },
}

/// The 64-bit value in EDX:EAX.
pub open spec fn edx_eax(regs: GuestRegisters) -> u64 {
    ((regs.rdx as u32) as u64) << 32u64 | ((regs.rax as u32) as u64)
}

/// The processor data with a #GP injected into the guest.
pub open spec fn with_gp(data: ProcessorData) -> ProcessorData {
    ProcessorData {
        guest_vmcb: Vmcb {
            control_area: ControlArea { event_inj: 0x8000_0b0d, ..data.guest_vmcb.control_area },
            ..data.guest_vmcb
        },
        ..data
    }
}

/// When `handle_msr` can handle an exit: an access to EFER must be a
/// write.
pub open spec fn msr_pre(data: ProcessorData, regs: GuestRegisters) -> bool {
    valid_msr_spec(regs.rcx as u32) && regs.rcx as u32 == IA32_EFER ==> data.guest_vmcb.control_area.exit_info1 != 0
}

/// What `handle_msr` does: the relation between the states before and after
/// the call and its result.
pub open spec fn msr_post(old_data: ProcessorData, old_regs: GuestRegisters, new_data: ProcessorData, new_regs: GuestRegisters, r: (ExitType, MsrAccess)) -> bool {
    &&& r.0 == ExitType::IncrementRIP
    &&& new_regs == old_regs
    &&& ({
                let msr = old_regs.rcx as u32;
                let write_access = old_data.guest_vmcb.control_area.exit_info1 != 0;
                let value = edx_eax(old_regs);
                if !valid_msr_spec(msr) {
                    &&& new_data == with_gp(old_data)
                    &&& r.1 == MsrAccess::Nothing
                } else if msr == IA32_EFER {
                    &&& new_data == (if value & EFER_SVME == 0 {
                        with_gp(old_data)
                    } else {
                        ProcessorData {
                            guest_vmcb: Vmcb {
                                save_area: SaveArea { efer: value, ..old_data.guest_vmcb.save_area },
                                ..old_data.guest_vmcb
                            },
                            ..old_data
                        }
                    })
                    &&& r.1 == MsrAccess::Nothing
                } else if write_access {
                    &&& new_data == old_data
                    &&& r.1 == (MsrAccess::Write { msr: msr, value: value })
                } else {
                    &&& new_data == old_data
                    &&& r.1 == (MsrAccess::Read { msr: msr })
                }
    })
}

/// Handles an MSR exit for the MSR in ECX; EXITINFO1 tells a write from a
/// read.
///
/// - An MSR that is not valid gets the guest a #GP.
/// - A write to EFER that clears EFER.SVME gets the guest a #GP and leaves
///   EFER as it is; any other write to EFER is kept in the guest's save
///   area.
/// - Any other write or read is handed back to be performed on the
///   processor.
///
/// The instruction is skipped in every case.
pub fn handle_msr(data: &mut ProcessorData, guest_regs: &mut GuestRegisters) -> (r: (
    ExitType,
    MsrAccess,
))
    requires
        msr_pre(*old(data), *old(guest_regs)),
    ensures
        msr_post(*old(data), *old(guest_regs), *final(data), *final(guest_regs), r),

{
    let msr = guest_regs.rcx as u32;
    let write_access = data.guest_vmcb.control_area.exit_info1 != 0;
    if !is_valid_msr(msr) {
        EventInjection::gp().inject(data);
        return (ExitType::IncrementRIP, MsrAccess::Nothing);
    }
    if msr == IA32_EFER {
        let low_part = guest_regs.rax as u32;
        let high_part = guest_regs.rdx as u32;
        let value = (high_part as u64) << 32 | low_part as u64;
        if value & EFER_SVME == 0 {
            // Clearing SVME under the hypervisor would leave the guest in an
            // undefined state.
            EventInjection::gp().inject(data);
        } else {
            data.guest_vmcb.save_area.efer = value;
        }
        (ExitType::IncrementRIP, MsrAccess::Nothing)
    } else if write_access {
        let low_part = guest_regs.rax as u32;
        let high_part = guest_regs.rdx as u32;
        let value = (high_part as u64) << 32 | low_part as u64;
        (ExitType::IncrementRIP, MsrAccess::Write { msr, value })
    } else {
        (ExitType::IncrementRIP, MsrAccess::Read { msr })
    }
}

/// What `handle_msr` does with an MSR of the reference's memory map other
/// than EFER: a write is handed back to be performed with the value of
/// EDX:EAX and a read to be performed, with no event injected and nothing
/// else changed. An MSR outside the map gets the guest a #GP and nothing is
/// performed. The guest's registers stay as they are and the instruction
/// is skipped either way.
pub proof fn lemma_msr_exit_outcome(
    old_data: ProcessorData,
    old_regs: GuestRegisters,
    new_data: ProcessorData,
    new_regs: GuestRegisters,
    r: (ExitType, MsrAccess),
)
    requires
        msr_post(old_data, old_regs, new_data, new_regs, r),
    ensures
        r.0 == ExitType::IncrementRIP,
        new_regs == old_regs,
        ({
            let msr = old_regs.rcx as u32;
            in_reference_map(msr) && msr != IA32_EFER ==> {
                &&& new_data == old_data
                &&& r.1 == if old_data.guest_vmcb.control_area.exit_info1 != 0 {
                    MsrAccess::Write { msr: msr, value: edx_eax(old_regs) }
                } else {
                    MsrAccess::Read { msr: msr }
                }
            }
        }),
        !in_reference_map(old_regs.rcx as u32) ==> {
            &&& new_data.guest_vmcb.control_area.event_inj == 0x8000_0b0du64
            &&& new_data.guest_vmcb.save_area == old_data.guest_vmcb.save_area
            &&& r.1 == MsrAccess::Nothing
        },
{
    lemma_valid_msr_ranges(old_regs.rcx as u32);
}

/// Hands the value of a read MSR to the guest: the low half in RAX, the
/// high half in RDX.
pub fn complete_msr_read(guest_regs: &mut GuestRegisters, value: u64)
    ensures
        *final(guest_regs) == (GuestRegisters {
            rax: (value as u32) as u64,
            rdx: value >> 32u64,
            ..*old(guest_regs)
        }),
{
    guest_regs.rax = (value as u32) as u64;
    guest_regs.rdx = value >> 32;
}

/// EDX:EAX round-trips a value: what `complete_msr_read` puts into the
/// registers reads back as the same value.
pub proof fn lemma_edx_eax_round_trip(regs: GuestRegisters, value: u64)
    ensures
        edx_eax(GuestRegisters { rax: (value as u32) as u64, rdx: value >> 32u64, ..regs }) == value,
{
    assert(((((value >> 32u64) as u32) as u64) << 32u64 | (((value as u32) as u64) as u32) as u64)
        == value) by (bit_vector);
}

/// Whether `handle_msr` can handle the exit: an access to EFER must be a
/// write.
pub fn msr_ready(data: &ProcessorData, regs: &GuestRegisters) -> (r: bool)
    ensures
        r == msr_pre(*data, *regs),
{
    let msr = regs.rcx as u32;
    !(is_valid_msr(msr) && msr == IA32_EFER) || data.guest_vmcb.control_area.exit_info1 != 0
}

} // verus!
