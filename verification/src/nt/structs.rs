//! Structures of the Windows kernel.
use vstd::prelude::*;

verus! {

/// Bug check code of a crash that was asked for.
pub const MANUALLY_INITIATED_CRASH: u32 = 0x000000E2;
/// Allocation from any NUMA node is acceptable.
pub const MM_ANY_NODE_OK: u32 = 0x80000000;

/// Header of a Windows bitmap: its size in bits and the address of its
/// buffer.
pub struct RTL_BITMAP {
    pub SizeOfBitMap: u32,
    pub Buffer: u64,
}

/// The caching type of a memory mapping.
#[derive(Debug, Clone, Copy, PartialEq, Eq, Structural)]
pub enum MEMORY_CACHING_TYPE {
    MmNonCached,
    MmCached,
    MmWriteCombined,
    MmHardwareCoherentCached,
    MmNonCachedUnordered,
    MmUSWCCached,
    MmMaximumCacheType,
    MmNotMapped,
}

impl MEMORY_CACHING_TYPE {
    /// The number the kernel uses for the caching type.
    pub fn value(&self) -> (r: i32)
        ensures
            r == match *self {
                MEMORY_CACHING_TYPE::MmNonCached => 0i32,
                MEMORY_CACHING_TYPE::MmCached => 1,
                MEMORY_CACHING_TYPE::MmWriteCombined => 2,
                MEMORY_CACHING_TYPE::MmHardwareCoherentCached => 3,
                MEMORY_CACHING_TYPE::MmNonCachedUnordered => 4,
                MEMORY_CACHING_TYPE::MmUSWCCached => 5,
                MEMORY_CACHING_TYPE::MmMaximumCacheType => 6,
                MEMORY_CACHING_TYPE::MmNotMapped => -1i32,
            },
    {
        match self {
            MEMORY_CACHING_TYPE::MmNonCached => 0,
            MEMORY_CACHING_TYPE::MmCached => 1,
            MEMORY_CACHING_TYPE::MmWriteCombined => 2,
            MEMORY_CACHING_TYPE::MmHardwareCoherentCached => 3,
            MEMORY_CACHING_TYPE::MmNonCachedUnordered => 4,
            MEMORY_CACHING_TYPE::MmUSWCCached => 5,
            MEMORY_CACHING_TYPE::MmMaximumCacheType => 6,
            MEMORY_CACHING_TYPE::MmNotMapped => -1,
        }
    }
}

/// The trap frame the kernel builds on an interrupt or exception.
pub struct KTRAP_FRAME {
    pub p1_home: u64,
    pub p2_home: u64,
    pub p3_home: u64,
    pub p4_home: u64,
    pub p5: u64,
    pub previous_mode: i8,
    pub previous_irql: u8,
    pub fault_indicator: u8,
    pub exception_active: u8,
    pub mx_csr: u32,
    pub rax: u64,
    pub rcx: u64,
    pub rdx: u64,
    pub r8: u64,
    pub r9: u64,
    pub r10: u64,
    pub r11: u64,
    pub gs_base: u64,
    pub xmm0: u128,
    pub xmm1: u128,
    pub xmm2: u128,
    pub xmm3: u128,
    pub xmm4: u128,
    pub xmm5: u128,
    pub fault_address: u64,
    pub dr0: u64,
    pub dr1: u64,
    pub dr2: u64,
    pub dr3: u64,
    pub dr6: u64,
    pub dr7: u64,
    pub debug_control: u64,
    pub last_branch_to_rip: u64,
    pub last_branch_from_rip: u64,
    pub last_exception_to_rip: u64,
    pub last_exception_from_rip: u64,
    pub seg_ds: u16,
    pub seg_es: u16,
    pub seg_fs: u16,
    pub seg_gs: u16,
    pub trap_frame: u64,
    pub rbx: u64,
    pub rdi: u64,
    pub rsi: u64,
    pub rbp: u64,
    pub error_code: u64,
    pub rip: u64,
    pub seg_cs: u16,
    pub fill_0: u8,
    pub logging: u8,
    pub fill_1: [u16; 2],
    pub e_flags: u32,
    pub fill_2: u32,
    pub rsp: u64,
    pub seg_ss: u16,
    pub fill_3: u16,
    pub fill_4: u32,
}

impl KTRAP_FRAME {
    /// A trap frame with every field zero.
    pub fn zeroed() -> (r: Self)
        ensures
            r.rsp == 0,
            r.rip == 0,
    {
        KTRAP_FRAME {
            p1_home: 0,
            p2_home: 0,
            p3_home: 0,
            p4_home: 0,
            p5: 0,
            previous_mode: 0,
            previous_irql: 0,
            fault_indicator: 0,
            exception_active: 0,
            mx_csr: 0,
            rax: 0,
            rcx: 0,
            rdx: 0,
            r8: 0,
            r9: 0,
            r10: 0,
            r11: 0,
            gs_base: 0,
            xmm0: 0,
            xmm1: 0,
            xmm2: 0,
            xmm3: 0,
            xmm4: 0,
            xmm5: 0,
            fault_address: 0,
            dr0: 0,
            dr1: 0,
            dr2: 0,
            dr3: 0,
            dr6: 0,
            dr7: 0,
            debug_control: 0,
            last_branch_to_rip: 0,
            last_branch_from_rip: 0,
            last_exception_to_rip: 0,
            last_exception_from_rip: 0,
            seg_ds: 0,
            seg_es: 0,
            seg_fs: 0,
            seg_gs: 0,
            trap_frame: 0,
            rbx: 0,
            rdi: 0,
            rsi: 0,
            rbp: 0,
            error_code: 0,
            rip: 0,
            seg_cs: 0,
            fill_0: 0,
            logging: 0,
            fill_1: [0u16; 2],
            e_flags: 0,
            fill_2: 0,
            rsp: 0,
            seg_ss: 0,
            fill_3: 0,
            fill_4: 0,
        }
    }
}

/// A 128-bit value in two halves.
pub struct M128A {
    low: u64,
    high: u64,
}

/// The legacy floating point and SSE state.
pub struct XSAVE_FORMAT {
    control_word: u16,
    status_word: u16,
    tag_word: u8,
    reserved_1: u8,
    error_opcode: u16,
    error_offset: u32,
    error_selector: u16,
    reserved_2: u16,
    data_offset: u32,
    data_selector: u16,
    reserved_3: u16,
    mx_csr: u32,
    mx_csr_mask: u32,
    float_registers: [u128; 8],
    xmm_registers: [u128; 16],
    reserved_4: [u8; 96],
}

impl XSAVE_FORMAT {
    /// Every field is zero.
    pub closed spec fn is_zeroed(&self) -> bool {
        &&& self.control_word == 0 && self.status_word == 0 && self.tag_word == 0 && self.reserved_1 == 0
        &&& self.error_opcode == 0 && self.error_offset == 0 && self.error_selector == 0
        &&& self.reserved_2 == 0 && self.data_offset == 0 && self.data_selector == 0
        &&& self.reserved_3 == 0 && self.mx_csr == 0 && self.mx_csr_mask == 0
        &&& forall|i: int| 0 <= i < 8 ==> #[trigger] self.float_registers[i] == 0
        &&& forall|i: int| 0 <= i < 16 ==> #[trigger] self.xmm_registers[i] == 0
        &&& forall|i: int| 0 <= i < 96 ==> #[trigger] self.reserved_4[i] == 0
    }

    /// A state with every field zero.
    pub fn zeroed() -> (r: Self)
        ensures
            r.is_zeroed(),
    {
        XSAVE_FORMAT {
            control_word: 0,
            status_word: 0,
            tag_word: 0,
            reserved_1: 0,
            error_opcode: 0,
            error_offset: 0,
            error_selector: 0,
            reserved_2: 0,
            data_offset: 0,
            data_selector: 0,
            reserved_3: 0,
            mx_csr: 0,
            mx_csr_mask: 0,
            float_registers: [0u128; 8],
            xmm_registers: [0u128; 16],
            reserved_4: [0u8; 96],
        }
    }
}

/// The register state of a thread, as `RtlCaptureContext` records it.
pub struct Context {
    pub p1_home: u64,
    pub p2_home: u64,
    pub p3_home: u64,
    pub p4_home: u64,
    pub p5_home: u64,
    pub p6_home: u64,
    pub context_flags: u32,
    pub mx_csr: u32,
    pub seg_cs: u16,
    pub seg_ds: u16,
    pub seg_es: u16,
    pub seg_fs: u16,
    pub seg_gs: u16,
    pub seg_ss: u16,
    pub e_flags: u32,
    pub dr0: u64,
    pub dr1: u64,
    pub dr2: u64,
    pub dr3: u64,
    pub dr6: u64,
    pub dr7: u64,
    pub rax: u64,
    pub rcx: u64,
    pub rdx: u64,
    pub rbx: u64,
    pub rsp: u64,
    pub rbp: u64,
    pub rsi: u64,
    pub rdi: u64,
    pub r8: u64,
    pub r9: u64,
    pub r10: u64,
    pub r11: u64,
    pub r12: u64,
    pub r13: u64,
    pub r14: u64,
    pub r15: u64,
    pub rip: u64,
    pub flt_save: XSAVE_FORMAT,
    pub vector_register: [u128; 26],
    pub vector_control: u64,
    pub debug_control: u64,
    pub last_branch_to_rip: u64,
    pub last_branch_from_rip: u64,
    pub last_exception_to_rip: u64,
    pub last_exception_from_rip: u64,
}

} // verus!
