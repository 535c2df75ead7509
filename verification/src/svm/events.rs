//! Event injection. See `15.20 Event Injection`.
//!
//! The VMM can inject exceptions or interrupts (collectively referred to as
//! events) into the guest by setting bits in the VMCB's EVENTINJ field prior
//! to executing the VMRUN instruction.
use vstd::prelude::*;

use crate::svm::data::processor::ProcessorData;
use crate::svm::vmcb::Vmcb;
use crate::svm::vmcb::control_area::ControlArea;

verus! {

/// The EVENTINJ field: vector in bits 0-7, type in bits 8-10, error code
/// valid in bit 11, valid in bit 31 and the error code in bits 32-63.
///
/// Types: 0 external or virtual interrupt, 2 NMI, 3 exception, 4 software
/// interrupt.
#[derive(Debug, Clone, Copy)]
pub struct EventInjection(pub u64);

pub open spec fn vector_of(v: u64) -> u64 {
    v & 0xffu64
}

pub open spec fn type_of(v: u64) -> u64 {
    (v >> 8u64) & 0x7u64
}

pub open spec fn error_code_valid_of(v: u64) -> u64 {
    (v >> 11u64) & 1u64
}

pub open spec fn valid_of(v: u64) -> u64 {
    (v >> 31u64) & 1u64
}

pub open spec fn error_code_of(v: u64) -> u64 {
    v >> 32u64
}

impl EventInjection {
    pub fn get_vector(&self) -> (r: u64)
        ensures
            r == vector_of(self.0),
    {
        self.0 & 0xff
    }

    /// Writes the low 8 bits of `value` into the vector.
    pub fn set_vector(&mut self, value: u64)
        ensures
            final(self).0 == (old(self).0 & !0xffu64) | (value & 0xffu64),
    {
        self.0 = (self.0 & !0xff) | (value & 0xff);
    }

    pub fn get_type(&self) -> (r: u64)
        ensures
            r == type_of(self.0),
    {
        (self.0 >> 8) & 0x7
    }

    /// Writes the low 3 bits of `value` into the type.
    pub fn set_type(&mut self, value: u64)
        ensures
            final(self).0 == (old(self).0 & !0x700u64) | ((value & 0x7u64) << 8u64),
    {
        self.0 = (self.0 & !0x700) | ((value & 0x7) << 8);
    }

    pub fn get_error_code_valid(&self) -> (r: u64)
        ensures
            r == error_code_valid_of(self.0),
    {
        (self.0 >> 11) & 1
    }

    /// Writes the low bit of `value` into the error code valid bit.
    pub fn set_error_code_valid(&mut self, value: u64)
        ensures
            final(self).0 == (old(self).0 & !0x800u64) | ((value & 1u64) << 11u64),
    {
        self.0 = (self.0 & !0x800) | ((value & 1) << 11);
    }

    pub fn get_valid(&self) -> (r: u64)
        ensures
            r == valid_of(self.0),
    {
        (self.0 >> 31) & 1
    }

    /// Writes the low bit of `value` into the valid bit.
    pub fn set_valid(&mut self, value: u64)
        ensures
            final(self).0 == (old(self).0 & !0x8000_0000u64) | ((value & 1u64) << 31u64),
    {
        self.0 = (self.0 & !0x8000_0000) | ((value & 1) << 31);
    }

    pub fn get_error_code(&self) -> (r: u64)
        ensures
            r == error_code_of(self.0),
    {
        self.0 >> 32
    }

    /// Writes the low 32 bits of `value` into the error code.
    pub fn set_error_code(&mut self, value: u64)
        ensures
            final(self).0 == (old(self).0 & 0xffff_ffffu64) | (value << 32u64),
    {
        self.0 = (self.0 & 0xffff_ffff) | (value << 32);
    }

    /// A general protection fault (#GP, vector 13): a valid exception with
    /// an error code of zero.
    pub fn gp() -> (r: Self)
        ensures
            r.0 == 0x8000_0b0d,
            vector_of(r.0) == 13,
            type_of(r.0) == 3,
            error_code_valid_of(r.0) == 1,
            valid_of(r.0) == 1,
            error_code_of(r.0) == 0,
    {
        let mut event = EventInjection(0);
        event.set_vector(13);
        event.set_type(3);
        event.set_error_code_valid(1);
        event.set_valid(1);
        assert(((((((0u64 & !0xffu64) | (13u64 & 0xffu64)) & !0x700u64) | ((3u64 & 7u64) << 8u64))
            & !0x800u64) | ((1u64 & 1u64) << 11u64)) & !0x8000_0000u64 | ((1u64 & 1u64) << 31u64)
            == 0x8000_0b0du64 && {
            &&& 0x8000_0b0du64 & 0xffu64 == 13
            &&& (0x8000_0b0du64 >> 8u64) & 7u64 == 3
            &&& (0x8000_0b0du64 >> 11u64) & 1u64 == 1
            &&& (0x8000_0b0du64 >> 31u64) & 1u64 == 1
            &&& 0x8000_0b0du64 >> 32u64 == 0
        }) by (bit_vector);
        event
    }

    /// A breakpoint (#BP, vector 3): a valid exception without an error
    /// code.
    pub fn bp() -> (r: Self)
        ensures
            r.0 == 0x8000_0303,
            vector_of(r.0) == 3,
            type_of(r.0) == 3,
            error_code_valid_of(r.0) == 0,
            valid_of(r.0) == 1,
            error_code_of(r.0) == 0,
    {
        let mut event = EventInjection(0);
        event.set_vector(3);
        event.set_type(3);
        event.set_valid(1);
        assert(((((0u64 & !0xffu64) | (3u64 & 0xffu64)) & !0x700u64) | ((3u64 & 7u64) << 8u64))
            & !0x8000_0000u64 | ((1u64 & 1u64) << 31u64) == 0x8000_0303u64 && {
            &&& 0x8000_0303u64 & 0xffu64 == 3
            &&& (0x8000_0303u64 >> 8u64) & 7u64 == 3
            &&& (0x8000_0303u64 >> 11u64) & 1u64 == 0
            &&& (0x8000_0303u64 >> 31u64) & 1u64 == 1
            &&& 0x8000_0303u64 >> 32u64 == 0
        }) by (bit_vector);
        event
    }

    /// Injects the current event into the guest VMCB.
    pub fn inject(&self, data: &mut ProcessorData)
        ensures
            *final(data) == (ProcessorData {
                guest_vmcb: Vmcb {
                    control_area: ControlArea { event_inj: self.0, ..old(data).guest_vmcb.control_area },
                    ..old(data).guest_vmcb
                },
                ..*old(data)
            }),
    {
        data.guest_vmcb.control_area.event_inj = self.0;
    }
}

/// Writing a field of an event gives back the written value, cut to the
/// field's width, and leaves the other fields as they were.
pub proof fn lemma_event_fields(v: u64, x: u64)
    ensures
        ({
            let w = (v & !0xffu64) | (x & 0xffu64);
            &&& vector_of(w) == x & 0xff
            &&& type_of(w) == type_of(v) && error_code_valid_of(w) == error_code_valid_of(v)
            &&& valid_of(w) == valid_of(v) && error_code_of(w) == error_code_of(v)
        }),
        ({
            let w = (v & !0x700u64) | ((x & 7u64) << 8u64);
            &&& type_of(w) == x & 7
            &&& vector_of(w) == vector_of(v) && error_code_valid_of(w) == error_code_valid_of(v)
            &&& valid_of(w) == valid_of(v) && error_code_of(w) == error_code_of(v)
        }),
        ({
            let w = (v & !0x800u64) | ((x & 1u64) << 11u64);
            &&& error_code_valid_of(w) == x & 1
            &&& vector_of(w) == vector_of(v) && type_of(w) == type_of(v)
            &&& valid_of(w) == valid_of(v) && error_code_of(w) == error_code_of(v)
        }),
        ({
            let w = (v & !0x8000_0000u64) | ((x & 1u64) << 31u64);
            &&& valid_of(w) == x & 1
            &&& vector_of(w) == vector_of(v) && type_of(w) == type_of(v)
            &&& error_code_valid_of(w) == error_code_valid_of(v) && error_code_of(w)
                == error_code_of(v)
        }),
        ({
            let w = (v & 0xffff_ffffu64) | (x << 32u64);
            &&& error_code_of(w) == x & 0xffff_ffff
            &&& vector_of(w) == vector_of(v) && type_of(w) == type_of(v)
            &&& error_code_valid_of(w) == error_code_valid_of(v) && valid_of(w) == valid_of(v)
        }),
{
    assert(
        {
        let w = (v & !0xffu64) | (x & 0xffu64);
        &&& w & 0xffu64 == x & 0xff
        &&& (w >> 8u64) & 7u64 == (v >> 8u64) & 7u64 && (w >> 11u64) & 1u64 == (v >> 11u64) & 1u64
        &&& (w >> 31u64) & 1u64 == (v >> 31u64) & 1u64 && w >> 32u64 == v >> 32u64
    }
        && {
        let w = (v & !0x700u64) | ((x & 7u64) << 8u64);
        &&& (w >> 8u64) & 7u64 == x & 7
        &&& w & 0xffu64 == v & 0xffu64 && (w >> 11u64) & 1u64 == (v >> 11u64) & 1u64
        &&& (w >> 31u64) & 1u64 == (v >> 31u64) & 1u64 && w >> 32u64 == v >> 32u64
    }
        && {
        let w = (v & !0x800u64) | ((x & 1u64) << 11u64);
        &&& (w >> 11u64) & 1u64 == x & 1
        &&& w & 0xffu64 == v & 0xffu64 && (w >> 8u64) & 7u64 == (v >> 8u64) & 7u64
        &&& (w >> 31u64) & 1u64 == (v >> 31u64) & 1u64 && w >> 32u64 == v >> 32u64
    }
        && {
        let w = (v & !0x8000_0000u64) | ((x & 1u64) << 31u64);
        &&& (w >> 31u64) & 1u64 == x & 1
        &&& w & 0xffu64 == v & 0xffu64 && (w >> 8u64) & 7u64 == (v >> 8u64) & 7u64
        &&& (w >> 11u64) & 1u64 == (v >> 11u64) & 1u64 && w >> 32u64 == v >> 32u64
    }
        && {
        let w = (v & 0xffff_ffffu64) | (x << 32u64);
        &&& w >> 32u64 == x & 0xffff_ffff
        &&& w & 0xffu64 == v & 0xffu64 && (w >> 8u64) & 7u64 == (v >> 8u64) & 7u64
        &&& (w >> 11u64) & 1u64 == (v >> 11u64) & 1u64 && (w >> 31u64) & 1u64 == (v >> 31u64)
            & 1u64
    }
    ) by (bit_vector);
}

} // verus!
