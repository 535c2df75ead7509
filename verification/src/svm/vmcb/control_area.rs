//! The control area of the VMCB.
use vstd::prelude::*;

verus! {

// The bits of `VmcbClean`.
pub const VMCB_CLEAN_I: u64 = 0x1;
pub const VMCB_CLEAN_IOPM: u64 = 0x2;
pub const VMCB_CLEAN_ASID: u64 = 0x4;
pub const VMCB_CLEAN_TPR: u64 = 0x8;
pub const VMCB_CLEAN_NP: u64 = 0x10;
pub const VMCB_CLEAN_CR_X: u64 = 0x20;
pub const VMCB_CLEAN_DR_X: u64 = 0x40;
pub const VMCB_CLEAN_DT: u64 = 0x80;
pub const VMCB_CLEAN_SEG: u64 = 0x100;
pub const VMCB_CLEAN_CR2: u64 = 0x200;
pub const VMCB_CLEAN_LBR: u64 = 0x400;
pub const VMCB_CLEAN_AVIC: u64 = 0x800;
pub const VMCB_CLEAN_CET: u64 = 0x1000;

// The bits of `TlbControl`.
pub const TLB_CONTROL_DO_NOTHING: u32 = 0x0;
pub const TLB_CONTROL_FLUSH_ENTIRE_TLB: u32 = 0x1;
pub const TLB_CONTROL_FLUSH_GUEST_TLB: u32 = 0x3;
pub const TLB_CONTROL_FLUSH_GUEST_NON_GLOBAL_TLB: u32 = 0x4;

// The bits of `NpEnable`.
pub const NP_ENABLE_NESTED_PAGING: u64 = 0x1;
pub const NP_ENABLE_SECURE_ENCRYPTED_VIRTUALIZATION: u64 = 0x2;
pub const NP_ENABLE_ENCRYPTED_STATE: u64 = 0x4;
pub const NP_ENABLE_GUEST_MODE_EXECUTE_TRAP: u64 = 0x8;
pub const NP_ENABLE_SSS_CHECK_EN: u64 = 0x10;
pub const NP_ENABLE_VIRTUAL_TRANSPARENT_ENCRYPTION: u64 = 0x20;
pub const NP_ENABLE_ENABLE_INVLPGB: u64 = 0x80;

// The bits of `InterceptMisc1`.
pub const INTERCEPT_INTR: u32 = 0x1;
pub const INTERCEPT_NMI: u32 = 0x2;
pub const INTERCEPT_SMI: u32 = 0x4;
pub const INTERCEPT_INIT: u32 = 0x8;
pub const INTERCEPT_VINTR: u32 = 0x10;
pub const INTERCEPT_CR0: u32 = 0x20;
pub const INTERCEPT_READ_IDTR: u32 = 0x40;
pub const INTERCEPT_READ_GDTR: u32 = 0x80;
pub const INTERCEPT_READ_LDTR: u32 = 0x100;
pub const INTERCEPT_READ_TR: u32 = 0x200;
pub const INTERCEPT_WRITE_IDTR: u32 = 0x400;
pub const INTERCEPT_WRITE_GDTR: u32 = 0x800;
pub const INTERCEPT_WRITE_LDTR: u32 = 0x1000;
pub const INTERCEPT_WRITE_TR: u32 = 0x2000;
pub const INTERCEPT_RDTSC: u32 = 0x4000;
pub const INTERCEPT_RDPMC: u32 = 0x8000;
pub const INTERCEPT_PUSHF: u32 = 0x10000;
pub const INTERCEPT_POPF: u32 = 0x20000;
pub const INTERCEPT_CPUID: u32 = 0x40000;
pub const INTERCEPT_RSM: u32 = 0x80000;
pub const INTERCEPT_IRET: u32 = 0x100000;
pub const INTERCEPT_INTN: u32 = 0x200000;
pub const INTERCEPT_INVD: u32 = 0x400000;
pub const INTERCEPT_PAUSE: u32 = 0x800000;
pub const INTERCEPT_HLT: u32 = 0x1000000;
pub const INTERCEPT_INVLPG: u32 = 0x2000000;
pub const INTERCEPT_INVLPGA: u32 = 0x4000000;
pub const INTERCEPT_IOIO_PROT: u32 = 0x8000000;
pub const INTERCEPT_MSR_PROT: u32 = 0x10000000;
pub const INTERCEPT_TASK_SWITCHES: u32 = 0x20000000;
pub const INTERCEPT_FERR_FREEZE: u32 = 0x40000000;
pub const INTERCEPT_SHUTDOWN: u32 = 0x80000000;

// The bits of `InterceptMisc2`.
pub const MISC2_INTERCEPT_VMRUN: u32 = 0x1;
pub const MISC2_INTERCEPT_VMCALL: u32 = 0x2;
pub const MISC2_INTERCEPT_VMLOAD: u32 = 0x4;
pub const MISC2_INTERCEPT_VMSAVE: u32 = 0x8;
pub const MISC2_INTERCEPT_STGI: u32 = 0x10;
pub const MISC2_INTERCEPT_CLGI: u32 = 0x20;
pub const MISC2_INTERCEPT_SKINIT: u32 = 0x40;
pub const MISC2_INTERCEPT_RDTSCP: u32 = 0x80;
pub const MISC2_INTERCEPT_ICEBP: u32 = 0x100;
pub const MISC2_INTERCEPT_WBINVD: u32 = 0x200;
pub const MISC2_INTERCEPT_MONITOR: u32 = 0x400;
pub const MISC2_INTERCEPT_MWAIT: u32 = 0x800;
pub const MISC2_INTERCEPT_MWAIT_CONDITIONAL: u32 = 0x1000;
pub const MISC2_INTERCEPT_XSETBV: u32 = 0x2000;
pub const MISC2_INTERCEPT_RDPRU: u32 = 0x4000;
pub const MISC2_INTERCEPT_EFER: u32 = 0x8000;
pub const MISC2_INTERCEPT_CR0: u32 = 0x10000;
pub const MISC2_INTERCEPT_CR1: u32 = 0x20000;
pub const MISC2_INTERCEPT_CR2: u32 = 0x40000;
pub const MISC2_INTERCEPT_CR3: u32 = 0x80000;
pub const MISC2_INTERCEPT_CR4: u32 = 0x100000;
pub const MISC2_INTERCEPT_CR5: u32 = 0x200000;
pub const MISC2_INTERCEPT_CR6: u32 = 0x400000;
pub const MISC2_INTERCEPT_CR7: u32 = 0x800000;
pub const MISC2_INTERCEPT_CR8: u32 = 0x1000000;
pub const MISC2_INTERCEPT_CR9: u32 = 0x2000000;
pub const MISC2_INTERCEPT_CR10: u32 = 0x4000000;
pub const MISC2_INTERCEPT_CR11: u32 = 0x8000000;
pub const MISC2_INTERCEPT_CR12: u32 = 0x10000000;
pub const MISC2_INTERCEPT_CR13: u32 = 0x20000000;
pub const MISC2_INTERCEPT_CR14: u32 = 0x40000000;
pub const MISC2_INTERCEPT_CR15: u32 = 0x80000000;

// The bits of `VmExitCode`.
pub const VMEXIT_CR0_READ: u64 = 0x0;
pub const VMEXIT_CR1_READ: u64 = 0x1;
pub const VMEXIT_CR2_READ: u64 = 0x2;
pub const VMEXIT_CR3_READ: u64 = 0x3;
pub const VMEXIT_CR4_READ: u64 = 0x4;
pub const VMEXIT_CR5_READ: u64 = 0x5;
pub const VMEXIT_CR6_READ: u64 = 0x6;
pub const VMEXIT_CR7_READ: u64 = 0x7;
pub const VMEXIT_CR8_READ: u64 = 0x8;
pub const VMEXIT_CR9_READ: u64 = 0x9;
pub const VMEXIT_CR10_READ: u64 = 0xa;
pub const VMEXIT_CR11_READ: u64 = 0xb;
pub const VMEXIT_CR12_READ: u64 = 0xc;
pub const VMEXIT_CR13_READ: u64 = 0xd;
pub const VMEXIT_CR14_READ: u64 = 0xe;
pub const VMEXIT_CR15_READ: u64 = 0xf;
pub const VMEXIT_CR0_WRITE: u64 = 0x10;
pub const VMEXIT_CR1_WRITE: u64 = 0x11;
pub const VMEXIT_CR2_WRITE: u64 = 0x12;
pub const VMEXIT_CR3_WRITE: u64 = 0x13;
pub const VMEXIT_CR4_WRITE: u64 = 0x14;
pub const VMEXIT_CR5_WRITE: u64 = 0x15;
pub const VMEXIT_CR6_WRITE: u64 = 0x16;
pub const VMEXIT_CR7_WRITE: u64 = 0x17;
pub const VMEXIT_CR8_WRITE: u64 = 0x18;
pub const VMEXIT_CR9_WRITE: u64 = 0x19;
pub const VMEXIT_CR10_WRITE: u64 = 0x1a;
pub const VMEXIT_CR11_WRITE: u64 = 0x1b;
pub const VMEXIT_CR12_WRITE: u64 = 0x1c;
pub const VMEXIT_CR13_WRITE: u64 = 0x1d;
pub const VMEXIT_CR14_WRITE: u64 = 0x1e;
pub const VMEXIT_CR15_WRITE: u64 = 0x1f;
pub const VMEXIT_DR0_READ: u64 = 0x20;
pub const VMEXIT_DR1_READ: u64 = 0x21;
pub const VMEXIT_DR2_READ: u64 = 0x22;
pub const VMEXIT_DR3_READ: u64 = 0x23;
pub const VMEXIT_DR4_READ: u64 = 0x24;
pub const VMEXIT_DR5_READ: u64 = 0x25;
pub const VMEXIT_DR6_READ: u64 = 0x26;
pub const VMEXIT_DR7_READ: u64 = 0x27;
pub const VMEXIT_DR8_READ: u64 = 0x28;
pub const VMEXIT_DR9_READ: u64 = 0x29;
pub const VMEXIT_DR10_READ: u64 = 0x2a;
pub const VMEXIT_DR11_READ: u64 = 0x2b;
pub const VMEXIT_DR12_READ: u64 = 0x2c;
pub const VMEXIT_DR13_READ: u64 = 0x2d;
pub const VMEXIT_DR14_READ: u64 = 0x2e;
pub const VMEXIT_DR15_READ: u64 = 0x2f;
pub const VMEXIT_DR0_WRITE: u64 = 0x30;
pub const VMEXIT_DR1_WRITE: u64 = 0x31;
pub const VMEXIT_DR2_WRITE: u64 = 0x32;
pub const VMEXIT_DR3_WRITE: u64 = 0x33;
pub const VMEXIT_DR4_WRITE: u64 = 0x34;
pub const VMEXIT_DR5_WRITE: u64 = 0x35;
pub const VMEXIT_DR6_WRITE: u64 = 0x36;
pub const VMEXIT_DR7_WRITE: u64 = 0x37;
pub const VMEXIT_DR8_WRITE: u64 = 0x38;
pub const VMEXIT_DR9_WRITE: u64 = 0x39;
pub const VMEXIT_DR10_WRITE: u64 = 0x3a;
pub const VMEXIT_DR11_WRITE: u64 = 0x3b;
pub const VMEXIT_DR12_WRITE: u64 = 0x3c;
pub const VMEXIT_DR13_WRITE: u64 = 0x3d;
pub const VMEXIT_DR14_WRITE: u64 = 0x3e;
pub const VMEXIT_DR15_WRITE: u64 = 0x3f;
pub const VMEXIT_EXCEPTION_DE: u64 = 0x40;
pub const VMEXIT_EXCEPTION_DB: u64 = 0x41;
pub const VMEXIT_EXCEPTION_NMI: u64 = 0x42;
pub const VMEXIT_EXCEPTION_BP: u64 = 0x43;
pub const VMEXIT_EXCEPTION_OF: u64 = 0x44;
pub const VMEXIT_EXCEPTION_BR: u64 = 0x45;
pub const VMEXIT_EXCEPTION_UD: u64 = 0x46;
pub const VMEXIT_EXCEPTION_NM: u64 = 0x47;
pub const VMEXIT_EXCEPTION_DF: u64 = 0x48;
pub const VMEXIT_EXCEPTION_09: u64 = 0x49;
pub const VMEXIT_EXCEPTION_TS: u64 = 0x4a;
pub const VMEXIT_EXCEPTION_NP: u64 = 0x4b;
pub const VMEXIT_EXCEPTION_SS: u64 = 0x4c;
pub const VMEXIT_EXCEPTION_GP: u64 = 0x4d;
pub const VMEXIT_EXCEPTION_PF: u64 = 0x4e;
pub const VMEXIT_EXCEPTION_15: u64 = 0x4f;
pub const VMEXIT_EXCEPTION_MF: u64 = 0x50;
pub const VMEXIT_EXCEPTION_AC: u64 = 0x51;
pub const VMEXIT_EXCEPTION_MC: u64 = 0x52;
pub const VMEXIT_EXCEPTION_XF: u64 = 0x53;
pub const VMEXIT_EXCEPTION_20: u64 = 0x54;
pub const VMEXIT_EXCEPTION_21: u64 = 0x55;
pub const VMEXIT_EXCEPTION_22: u64 = 0x56;
pub const VMEXIT_EXCEPTION_23: u64 = 0x57;
pub const VMEXIT_EXCEPTION_24: u64 = 0x58;
pub const VMEXIT_EXCEPTION_25: u64 = 0x59;
pub const VMEXIT_EXCEPTION_26: u64 = 0x5a;
pub const VMEXIT_EXCEPTION_27: u64 = 0x5b;
pub const VMEXIT_EXCEPTION_28: u64 = 0x5c;
pub const VMEXIT_EXCEPTION_VC: u64 = 0x5d;
pub const VMEXIT_EXCEPTION_SX: u64 = 0x5e;
pub const VMEXIT_EXCEPTION_31: u64 = 0x5f;
pub const VMEXIT_INTR: u64 = 0x60;
pub const VMEXIT_NMI: u64 = 0x61;
pub const VMEXIT_SMI: u64 = 0x62;
pub const VMEXIT_INIT: u64 = 0x63;
pub const VMEXIT_VINTR: u64 = 0x64;
pub const VMEXIT_CR0_SEL_WRITE: u64 = 0x65;
pub const VMEXIT_IDTR_READ: u64 = 0x66;
pub const VMEXIT_GDTR_READ: u64 = 0x67;
pub const VMEXIT_LDTR_READ: u64 = 0x68;
pub const VMEXIT_TR_READ: u64 = 0x69;
pub const VMEXIT_IDTR_WRITE: u64 = 0x6a;
pub const VMEXIT_GDTR_WRITE: u64 = 0x6b;
pub const VMEXIT_LDTR_WRITE: u64 = 0x6c;
pub const VMEXIT_TR_WRITE: u64 = 0x6d;
pub const VMEXIT_RDTSC: u64 = 0x6e;
pub const VMEXIT_RDPMC: u64 = 0x6f;
pub const VMEXIT_PUSHF: u64 = 0x70;
pub const VMEXIT_POPF: u64 = 0x71;
pub const VMEXIT_CPUID: u64 = 0x72;
pub const VMEXIT_RSM: u64 = 0x73;
pub const VMEXIT_IRET: u64 = 0x74;
pub const VMEXIT_SWINT: u64 = 0x75;
pub const VMEXIT_INVD: u64 = 0x76;
pub const VMEXIT_PAUSE: u64 = 0x77;
pub const VMEXIT_HLT: u64 = 0x78;
pub const VMEXIT_INVLPG: u64 = 0x79;
pub const VMEXIT_INVLPGA: u64 = 0x7a;
pub const VMEXIT_IOIO: u64 = 0x7b;
pub const VMEXIT_MSR: u64 = 0x7c;
pub const VMEXIT_TASK_SWITCH: u64 = 0x7d;
pub const VMEXIT_FERR_FREEZE: u64 = 0x7e;
pub const VMEXIT_SHUTDOWN: u64 = 0x7f;
pub const VMEXIT_VMRUN: u64 = 0x80;
pub const VMEXIT_VMMCALL: u64 = 0x81;
pub const VMEXIT_VMLOAD: u64 = 0x82;
pub const VMEXIT_VMSAVE: u64 = 0x83;
pub const VMEXIT_STGI: u64 = 0x84;
pub const VMEXIT_CLGI: u64 = 0x85;
pub const VMEXIT_SKINIT: u64 = 0x86;
pub const VMEXIT_RDTSCP: u64 = 0x87;
pub const VMEXIT_ICEBP: u64 = 0x88;
pub const VMEXIT_WBINVD: u64 = 0x89;
pub const VMEXIT_MONITOR: u64 = 0x8a;
pub const VMEXIT_MWAIT: u64 = 0x8b;
pub const VMEXIT_MWAIT_CONDITIONAL: u64 = 0x8c;
pub const VMEXIT_XSETBV: u64 = 0x8d;
pub const VMEXIT_EFER_WRITE_TRAP: u64 = 0x8f;
pub const VMEXIT_CR0_WRITE_TRAP: u64 = 0x90;
pub const VMEXIT_CR1_WRITE_TRAP: u64 = 0x91;
pub const VMEXIT_CR2_WRITE_TRAP: u64 = 0x92;
pub const VMEXIT_CR3_WRITE_TRAP: u64 = 0x93;
pub const VMEXIT_CR4_WRITE_TRAP: u64 = 0x94;
pub const VMEXIT_CR5_WRITE_TRAP: u64 = 0x95;
pub const VMEXIT_CR6_WRITE_TRAP: u64 = 0x96;
pub const VMEXIT_CR7_WRITE_TRAP: u64 = 0x97;
pub const VMEXIT_CR8_WRITE_TRAP: u64 = 0x98;
pub const VMEXIT_CR9_WRITE_TRAP: u64 = 0x99;
pub const VMEXIT_CR10_WRITE_TRAP: u64 = 0x9a;
pub const VMEXIT_CR11_WRITE_TRAP: u64 = 0x9b;
pub const VMEXIT_CR12_WRITE_TRAP: u64 = 0x9c;
pub const VMEXIT_CR13_WRITE_TRAP: u64 = 0x9d;
pub const VMEXIT_CR14_WRITE_TRAP: u64 = 0x9e;
pub const VMEXIT_CR15_WRITE_TRAP: u64 = 0x9f;
pub const VMEXIT_NPF: u64 = 0x400;
pub const AVIC_INCOMPLETE_IPI: u64 = 0x401;
pub const AVIC_NOACCEL: u64 = 0x402;
pub const VMEXIT_VMGEXIT: u64 = 0x403;
pub const VMEXIT_INVALID: u64 = 0xffffffffffffffff;

// The bits of `NptExitInfo`.
pub const NPT_EXIT_PRESENT: u64 = 0x1;
pub const NPT_EXIT_RW: u64 = 0x2;
pub const NPT_EXIT_US: u64 = 0x4;
pub const NPT_EXIT_RSV: u64 = 0x8;
pub const NPT_EXIT_ID: u64 = 0x10;
pub const NPT_EXIT_SS: u64 = 0x40;
pub const NPT_EXIT_GUEST_PA: u64 = 0x100000000;
pub const NPT_EXIT_GUEST_PAGE_TABLES: u64 = 0x200000000;
pub const NPT_EXIT_GUEST_PAGE_TABLES_WITH_SS: u64 = 0x2000000000;


/// The control area of the VMCB: the intercept vectors and the other
/// control bits, and what the processor reports on #VMEXIT.
pub struct ControlArea {
    pub intercept_cr_read: u16,
    pub intercept_cr_write: u16,
    pub intercept_dr_read: u16,
    pub intercept_dr_write: u16,
    pub intercept_exception: u32,
    pub intercept_misc1: u32,
    pub intercept_misc2: u32,
    pub reserved1: [u8; 40],
    pub pause_filter_threshold: u16,
    pub pause_filter_count: u16,
    pub iopm_base_pa: u64,
    pub msrpm_base_pa: u64,
    pub tsc_offset: u64,
    pub guest_asid: u32,
    pub tlb_control: u32,
    pub vintr: u64,
    pub interrupt_shadow: u64,
    pub exit_code: u64,
    pub exit_info1: u64,
    pub exit_info2: u64,
    pub exit_int_info: u64,
    pub np_enable: u64,
    pub avic_apic_bar: u64,
    pub guest_pa_of_ghcb: u64,
    pub event_inj: u64,
    pub ncr3: u64,
    pub lbr_virtualization_enable: u64,
    pub vmcb_clean: u64,
    pub nrip: u64,
    pub num_of_bytes_fetched: u8,
    pub guest_instruction_bytes: [u8; 15],
    pub avic_apic_backing_page_pointer: u64,
    pub reserved2: u64,
    pub avic_logical_table_pointer: u64,
    pub avic_physical_table_pointer: u64,
    pub reserved3: u64,
    pub vmcb_save_state_pointer: u64,
    pub reserved4: [u8; 752],
}

impl ControlArea {
    /// Every field that holds a number is zero.
    pub open spec fn is_zeroed(&self) -> bool {
        &&& self.intercept_cr_read == 0
        &&& self.intercept_cr_write == 0
        &&& self.intercept_dr_read == 0
        &&& self.intercept_dr_write == 0
        &&& self.intercept_exception == 0
        &&& self.intercept_misc1 == 0
        &&& self.intercept_misc2 == 0
        &&& self.pause_filter_threshold == 0
        &&& self.pause_filter_count == 0
        &&& self.iopm_base_pa == 0
        &&& self.msrpm_base_pa == 0
        &&& self.tsc_offset == 0
        &&& self.guest_asid == 0
        &&& self.tlb_control == 0
        &&& self.vintr == 0
        &&& self.interrupt_shadow == 0
        &&& self.exit_code == 0
        &&& self.exit_info1 == 0
        &&& self.exit_info2 == 0
        &&& self.exit_int_info == 0
        &&& self.np_enable == 0
        &&& self.avic_apic_bar == 0
        &&& self.guest_pa_of_ghcb == 0
        &&& self.event_inj == 0
        &&& self.ncr3 == 0
        &&& self.lbr_virtualization_enable == 0
        &&& self.vmcb_clean == 0
        &&& self.nrip == 0
        &&& self.num_of_bytes_fetched == 0
        &&& self.avic_apic_backing_page_pointer == 0
        &&& self.reserved2 == 0
        &&& self.avic_logical_table_pointer == 0
        &&& self.avic_physical_table_pointer == 0
        &&& self.reserved3 == 0
        &&& self.vmcb_save_state_pointer == 0
    }

    /// All fields zero, as in freshly zeroed memory.
    pub fn zeroed() -> (r: Self)
        ensures
            r.is_zeroed(),
    {
        ControlArea {
            intercept_cr_read: 0,
            intercept_cr_write: 0,
            intercept_dr_read: 0,
            intercept_dr_write: 0,
            intercept_exception: 0,
            intercept_misc1: 0,
            intercept_misc2: 0,
            reserved1: [0u8; 40],
            pause_filter_threshold: 0,
            pause_filter_count: 0,
            iopm_base_pa: 0,
            msrpm_base_pa: 0,
            tsc_offset: 0,
            guest_asid: 0,
            tlb_control: 0,
            vintr: 0,
            interrupt_shadow: 0,
            exit_code: 0,
            exit_info1: 0,
            exit_info2: 0,
            exit_int_info: 0,
            np_enable: 0,
            avic_apic_bar: 0,
            guest_pa_of_ghcb: 0,
            event_inj: 0,
            ncr3: 0,
            lbr_virtualization_enable: 0,
            vmcb_clean: 0,
            nrip: 0,
            num_of_bytes_fetched: 0,
            guest_instruction_bytes: [0u8; 15],
            avic_apic_backing_page_pointer: 0,
            reserved2: 0,
            avic_logical_table_pointer: 0,
            avic_physical_table_pointer: 0,
            reserved3: 0,
            vmcb_save_state_pointer: 0,
            reserved4: [0u8; 752],
        }
    }
}

} // verus!
