//! The state-save area of the VMCB.
use vstd::prelude::*;

use crate::nt::structs::Context;

verus! {

/// The requested privilege level bits of a segment selector.
pub const RPL_MASK: u16 = 3;

/// The attribute bits of a segment in the VMCB, taken from its descriptor:
/// type (descriptor bits 40-43 to bits 0-3), system (44 to 4), DPL (45-46
/// to 5-6), present (47 to 7), AVL (52 to 8), long mode (53 to 9), default
/// operation size (54 to 10) and granularity (55 to 11).
pub open spec fn descriptor_attributes(descriptor: u64) -> u16 {
    (((descriptor >> 40u64) & 0xffu64) | (((descriptor >> 52u64) & 0xfu64) << 8u64)) as u16
}

/// What the processor state holds that the guest starts with: the GDT and
/// IDT registers, the limits and descriptors of CS, DS, ES and SS, the PAT
/// and EFER MSRs and the control registers.
pub struct HostState {
    pub gdtr_base: u64,
    pub gdtr_limit: u16,
    pub idtr_base: u64,
    pub idtr_limit: u16,
    pub cs_limit: u32,
    pub ds_limit: u32,
    pub es_limit: u32,
    pub ss_limit: u32,
    pub cs_descriptor: u64,
    pub ds_descriptor: u64,
    pub es_descriptor: u64,
    pub ss_descriptor: u64,
    pub pat: u64,
    pub efer: u64,
    pub cr0: u64,
    pub cr2: u64,
    pub cr3: u64,
    pub cr4: u64,
}

/// The state-save area of the VMCB: the guest's registers.
pub struct SaveArea {
    pub es_selector: u16,
    pub es_attrib: u16,
    pub es_limit: u32,
    pub es_base: u64,
    pub cs_selector: u16,
    pub cs_attrib: u16,
    pub cs_limit: u32,
    pub cs_base: u64,
    pub ss_selector: u16,
    pub ss_attrib: u16,
    pub ss_limit: u32,
    pub ss_base: u64,
    pub ds_selector: u16,
    pub ds_attrib: u16,
    pub ds_limit: u32,
    pub ds_base: u64,
    pub fs_selector: u16,
    pub fs_attrib: u16,
    pub fs_limit: u32,
    pub fs_base: u64,
    pub gs_selector: u16,
    pub gs_attrib: u16,
    pub gs_limit: u32,
    pub gs_base: u64,
    pub gdtr_selector: u16,
    pub gdtr_attrib: u16,
    pub gdtr_limit: u32,
    pub gdtr_base: u64,
    pub ldtr_selector: u16,
    pub ldtr_attrib: u16,
    pub ldtr_limit: u32,
    pub ldtr_base: u64,
    pub idtr_selector: u16,
    pub idtr_attrib: u16,
    pub idtr_limit: u32,
    pub idtr_base: u64,
    pub tr_selector: u16,
    pub tr_attrib: u16,
    pub tr_limit: u32,
    pub tr_base: u64,
    pub reserved1: [u8; 43],
    pub cpl: u8,
    pub reserved2: u32,
    pub efer: u64,
    pub reserved3: [u8; 112],
    pub cr4: u64,
    pub cr3: u64,
    pub cr0: u64,
    pub dr7: u64,
    pub dr6: u64,
    pub rflags: u64,
    pub rip: u64,
    pub reserved4: [u8; 88],
    pub rsp: u64,
    pub reserved5: [u8; 24],
    pub rax: u64,
    pub star: u64,
    pub lstar: u64,
    pub cstar: u64,
    pub sf_mask: u64,
    pub kernel_gs_base: u64,
    pub sysenter_cs: u64,
    pub sysenter_esp: u64,
    pub sysenter_eip: u64,
    pub cr2: u64,
    pub reserved6: [u8; 32],
    pub gpat: u64,
    pub dbg_ctl: u64,
    pub br_from: u64,
    pub br_to: u64,
    pub last_excep_from: u64,
    pub last_excep_to: u64,
}

impl SaveArea {
    /// Every field that holds a number is zero.
    pub open spec fn is_zeroed(&self) -> bool {
        &&& self.es_selector == 0
        &&& self.es_attrib == 0
        &&& self.es_limit == 0
        &&& self.es_base == 0
        &&& self.cs_selector == 0
        &&& self.cs_attrib == 0
        &&& self.cs_limit == 0
        &&& self.cs_base == 0
        &&& self.ss_selector == 0
        &&& self.ss_attrib == 0
        &&& self.ss_limit == 0
        &&& self.ss_base == 0
        &&& self.ds_selector == 0
        &&& self.ds_attrib == 0
        &&& self.ds_limit == 0
        &&& self.ds_base == 0
        &&& self.fs_selector == 0
        &&& self.fs_attrib == 0
        &&& self.fs_limit == 0
        &&& self.fs_base == 0
        &&& self.gs_selector == 0
        &&& self.gs_attrib == 0
        &&& self.gs_limit == 0
        &&& self.gs_base == 0
        &&& self.gdtr_selector == 0
        &&& self.gdtr_attrib == 0
        &&& self.gdtr_limit == 0
        &&& self.gdtr_base == 0
        &&& self.ldtr_selector == 0
        &&& self.ldtr_attrib == 0
        &&& self.ldtr_limit == 0
        &&& self.ldtr_base == 0
        &&& self.idtr_selector == 0
        &&& self.idtr_attrib == 0
        &&& self.idtr_limit == 0
        &&& self.idtr_base == 0
        &&& self.tr_selector == 0
        &&& self.tr_attrib == 0
        &&& self.tr_limit == 0
        &&& self.tr_base == 0
        &&& self.cpl == 0
        &&& self.reserved2 == 0
        &&& self.efer == 0
        &&& self.cr4 == 0
        &&& self.cr3 == 0
        &&& self.cr0 == 0
        &&& self.dr7 == 0
        &&& self.dr6 == 0
        &&& self.rflags == 0
        &&& self.rip == 0
        &&& self.rsp == 0
        &&& self.rax == 0
        &&& self.star == 0
        &&& self.lstar == 0
        &&& self.cstar == 0
        &&& self.sf_mask == 0
        &&& self.kernel_gs_base == 0
        &&& self.sysenter_cs == 0
        &&& self.sysenter_esp == 0
        &&& self.sysenter_eip == 0
        &&& self.cr2 == 0
        &&& self.gpat == 0
        &&& self.dbg_ctl == 0
        &&& self.br_from == 0
        &&& self.br_to == 0
        &&& self.last_excep_from == 0
        &&& self.last_excep_to == 0
    }

    /// The address of the descriptor of a segment in the GDT: the selector
    /// without its requested privilege level, as an offset from the base.
    pub fn descriptor_address(segment_selector: u16, gdt_base: u64) -> (r: u64)
        requires
            gdt_base + 0xfffc <= u64::MAX,
        ensures
            r == gdt_base + (segment_selector & !3u16),
    {
        assert(segment_selector & !3u16 <= 0xfffc) by (bit_vector);
        gdt_base + (segment_selector & !RPL_MASK) as u64
    }

    /// The VMCB attribute bits of a segment, from its descriptor.
    pub fn segment_access_right(descriptor: u64) -> (r: u16)
        ensures
            r == descriptor_attributes(descriptor),
            r & 0xf == (descriptor >> 40u64) & 0xf,
            (r >> 4u16) & 1 == (descriptor >> 44u64) & 1,
            (r >> 5u16) & 3 == (descriptor >> 45u64) & 3,
            (r >> 7u16) & 1 == (descriptor >> 47u64) & 1,
            (r >> 8u16) & 1 == (descriptor >> 52u64) & 1,
            (r >> 9u16) & 1 == (descriptor >> 53u64) & 1,
            (r >> 10u16) & 1 == (descriptor >> 54u64) & 1,
            (r >> 11u16) & 1 == (descriptor >> 55u64) & 1,
            r >> 12u16 == 0,
    {
        let segment_type = ((descriptor >> 40) & 0xf) as u16;
        let system = ((descriptor >> 44) & 1) as u16;
        let dpl = ((descriptor >> 45) & 3) as u16;
        let present = ((descriptor >> 47) & 1) as u16;
        let avl = ((descriptor >> 52) & 1) as u16;
        let long_mode = ((descriptor >> 53) & 1) as u16;
        let default_bit = ((descriptor >> 54) & 1) as u16;
        let granularity = ((descriptor >> 55) & 1) as u16;
        let attribute = segment_type | system << 4 | dpl << 5 | present << 7 | avl << 8 | long_mode
            << 9 | default_bit << 10 | granularity << 11;
        assert(attribute == descriptor_attributes(descriptor) && {
            &&& attribute & 0xf == (descriptor >> 40u64) & 0xf
            &&& (attribute >> 4u16) & 1 == (descriptor >> 44u64) & 1
            &&& (attribute >> 5u16) & 3 == (descriptor >> 45u64) & 3
            &&& (attribute >> 7u16) & 1 == (descriptor >> 47u64) & 1
            &&& (attribute >> 8u16) & 1 == (descriptor >> 52u64) & 1
            &&& (attribute >> 9u16) & 1 == (descriptor >> 53u64) & 1
            &&& (attribute >> 10u16) & 1 == (descriptor >> 54u64) & 1
            &&& (attribute >> 11u16) & 1 == (descriptor >> 55u64) & 1
            &&& attribute >> 12u16 == 0
        }) by (bit_vector)
            requires
                segment_type == ((descriptor >> 40u64) & 0xfu64) as u16,
                system == ((descriptor >> 44u64) & 1u64) as u16,
                dpl == ((descriptor >> 45u64) & 3u64) as u16,
                present == ((descriptor >> 47u64) & 1u64) as u16,
                avl == ((descriptor >> 52u64) & 1u64) as u16,
                long_mode == ((descriptor >> 53u64) & 1u64) as u16,
                default_bit == ((descriptor >> 54u64) & 1u64) as u16,
                granularity == ((descriptor >> 55u64) & 1u64) as u16,
                attribute == segment_type | system << 4u16 | dpl << 5u16 | present << 7u16 | avl
                    << 8u16 | long_mode << 9u16 | default_bit << 10u16 | granularity << 11u16,
        ;
        attribute
    }

    /// The save area after `build`.
    pub open spec fn built(old: SaveArea, context: &Context, host: &HostState) -> SaveArea {
        SaveArea {
            gdtr_base: host.gdtr_base,
            gdtr_limit: host.gdtr_limit as u32,
            idtr_base: host.idtr_base,
            idtr_limit: host.idtr_limit as u32,
            cs_limit: host.cs_limit,
            ds_limit: host.ds_limit,
            es_limit: host.es_limit,
            ss_limit: host.ss_limit,
            cs_selector: context.seg_cs,
            ds_selector: context.seg_ds,
            es_selector: context.seg_es,
            ss_selector: context.seg_ss,
            cs_attrib: descriptor_attributes(host.cs_descriptor),
            ds_attrib: descriptor_attributes(host.ds_descriptor),
            es_attrib: descriptor_attributes(host.es_descriptor),
            ss_attrib: descriptor_attributes(host.ss_descriptor),
            gpat: host.pat,
            efer: host.efer,
            cr0: host.cr0,
            cr2: host.cr2,
            cr3: host.cr3,
            cr4: host.cr4,
            rflags: context.e_flags as u64,
            rsp: context.rsp,
            rip: context.rip,
            ..old
        }
    }

    /// Sets up the guest state from the current processor state and the
    /// captured context: descriptor tables, segments, MSRs, control
    /// registers, flags, stack pointer and instruction pointer.
    pub fn build(&mut self, context: &Context, host: &HostState)
        ensures
            *final(self) == Self::built(*old(self), context, host),
    {
        self.gdtr_base = host.gdtr_base;
        self.gdtr_limit = host.gdtr_limit as u32;
        self.idtr_base = host.idtr_base;
        self.idtr_limit = host.idtr_limit as u32;
        self.cs_limit = host.cs_limit;
        self.ds_limit = host.ds_limit;
        self.es_limit = host.es_limit;
        self.ss_limit = host.ss_limit;
        self.cs_selector = context.seg_cs;
        self.ds_selector = context.seg_ds;
        self.es_selector = context.seg_es;
        self.ss_selector = context.seg_ss;
        self.cs_attrib = Self::segment_access_right(host.cs_descriptor);
        self.ds_attrib = Self::segment_access_right(host.ds_descriptor);
        self.es_attrib = Self::segment_access_right(host.es_descriptor);
        self.ss_attrib = Self::segment_access_right(host.ss_descriptor);
        self.gpat = host.pat;
        self.efer = host.efer;
        self.cr0 = host.cr0;
        self.cr2 = host.cr2;
        self.cr3 = host.cr3;
        self.cr4 = host.cr4;
        self.rflags = context.e_flags as u64;
        self.rsp = context.rsp;
        self.rip = context.rip;
    }

    /// All fields zero, as in freshly zeroed memory.
    pub fn zeroed() -> (r: Self)
        ensures
            r.is_zeroed(),
    {
        SaveArea {
            es_selector: 0,
            es_attrib: 0,
            es_limit: 0,
            es_base: 0,
            cs_selector: 0,
            cs_attrib: 0,
            cs_limit: 0,
            cs_base: 0,
            ss_selector: 0,
            ss_attrib: 0,
            ss_limit: 0,
            ss_base: 0,
            ds_selector: 0,
            ds_attrib: 0,
            ds_limit: 0,
            ds_base: 0,
            fs_selector: 0,
            fs_attrib: 0,
            fs_limit: 0,
            fs_base: 0,
            gs_selector: 0,
            gs_attrib: 0,
            gs_limit: 0,
            gs_base: 0,
            gdtr_selector: 0,
            gdtr_attrib: 0,
            gdtr_limit: 0,
            gdtr_base: 0,
            ldtr_selector: 0,
            ldtr_attrib: 0,
            ldtr_limit: 0,
            ldtr_base: 0,
            idtr_selector: 0,
            idtr_attrib: 0,
            idtr_limit: 0,
            idtr_base: 0,
            tr_selector: 0,
            tr_attrib: 0,
            tr_limit: 0,
            tr_base: 0,
            reserved1: [0u8; 43],
            cpl: 0,
            reserved2: 0,
            efer: 0,
            reserved3: [0u8; 112],
            cr4: 0,
            cr3: 0,
            cr0: 0,
            dr7: 0,
            dr6: 0,
            rflags: 0,
            rip: 0,
            reserved4: [0u8; 88],
            rsp: 0,
            reserved5: [0u8; 24],
            rax: 0,
            star: 0,
            lstar: 0,
            cstar: 0,
            sf_mask: 0,
            kernel_gs_base: 0,
            sysenter_cs: 0,
            sysenter_esp: 0,
            sysenter_eip: 0,
            cr2: 0,
            reserved6: [0u8; 32],
            gpat: 0,
            dbg_ctl: 0,
            br_from: 0,
            br_to: 0,
            last_excep_from: 0,
            last_excep_to: 0,
        }
    }
}

} // verus!
