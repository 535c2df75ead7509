//! The MSR permission map: two bits per MSR that make a read or a write of
//! it leave the guest (#VMEXIT).
use vstd::prelude::*;

use crate::nt::structs::RTL_BITMAP;

verus! {

pub const CHAR_BIT: u32 = 8;
pub const BITS_PER_MSR: u32 = 2;
/// The number of bits that cover one range of MSRs.
pub const RANGE_SIZE: u32 = 0x4000;

/// Extended Feature Enable Register.
pub const IA32_EFER: u32 = 0xC000_0080;
/// Time-stamp counter.
pub const SVM_MSR_TSC: u32 = 0x0000_0010;
/// Physical address of the host save area.
pub const SVM_MSR_VM_HSAVE_PA: u32 = 0xC001_0117;
/// EFER.SVME: secure virtual machine enable.
pub const EFER_SVME: u64 = 0x1000;

/// Number of bytes of the map.
pub const MSR_BITMAP_SIZE: usize = 0x2000;

/// The offset of the MSR in its range: two bits for each of the 0x2000 MSRs
/// of a range, which the low 13 bits of the number tell apart.
pub open spec fn msr_offset_spec(msr: u32) -> int {
    (msr & 0x1fffu32) * 2
}

/// The offset of the range the MSR belongs to: 0000_0000 to 0000_1FFF,
/// C000_0000 to C000_1FFF, C001_0000 to C001_1FFF, and all other MSRs.
pub open spec fn msr_range_spec(msr: u32) -> int {
    if msr <= 0x1fff {
        0
    } else if 0xC000_0000 <= msr <= 0xC000_1FFF {
        0x4000
    } else if 0xC001_0000 <= msr <= 0xC001_1FFF {
        0x8000
    } else {
        0xC000
    }
}

/// Index of the bit that intercepts reads of the MSR; the next bit
/// intercepts writes.
pub open spec fn read_bit_index(msr: u32) -> int {
    msr_range_spec(msr) + msr_offset_spec(msr)
}

pub open spec fn byte_bit(b: u8, s: int) -> bool {
    (b >> (s as u8)) & 1u8 == 1u8
}

/// Bit `i` of a byte sequence, counting from the lowest bit of byte 0.
pub open spec fn seq_bit(bytes: Seq<u8>, i: int) -> bool {
    byte_bit(bytes[i / 8], i % 8)
}

/// The bytes with bit `i` set.
pub open spec fn set_bit_spec(bytes: Seq<u8>, i: int) -> Seq<u8> {
    bytes.update(i / 8, bytes[i / 8] | (1u8 << ((i % 8) as u8)))
}

pub proof fn lemma_msr_offset_bound(msr: u32)
    ensures
        0 <= msr_offset_spec(msr) <= 0x3ffe,
        msr_offset_spec(msr) % 2 == 0,
{
    assert(msr & 0x1fffu32 <= 0x1fff) by (bit_vector);
}

/// Setting a bit sets exactly that bit.
pub proof fn lemma_set_bit(bytes: Seq<u8>, i: int, j: int)
    requires
        0 <= i < bytes.len() * 8,
        0 <= j < bytes.len() * 8,
    ensures
        seq_bit(set_bit_spec(bytes, i), j) == (seq_bit(bytes, j) || i == j),
{
    let b = bytes[i / 8];
    let s = (i % 8) as u8;
    if j / 8 == i / 8 {
        let t = (j % 8) as u8;
        assert(s < 8 && t < 8 ==> (((b | (1u8 << s)) >> t) & 1u8 == 1u8) == (((b >> t) & 1u8 == 1u8)
            || s == t)) by (bit_vector);
        if i != j {
            assert(s != t);
        }
    }
}

/// The MSR permission map: four ranges of 0x800 bytes each.
pub struct MsrBitmap {
    /// 0000_0000 to 0000_1FFF
    pub msr_bitmap_0: Vec<u8>,
    /// C000_0000 to C000_1FFF
    pub msr_bitmap_1: Vec<u8>,
    /// C001_0000 to C001_1FFF
    pub msr_bitmap_2: Vec<u8>,
    /// Reserved
    pub msr_bitmap_3: Vec<u8>,
}

impl MsrBitmap {
    pub open spec fn wf(&self) -> bool {
        &&& self.msr_bitmap_0@.len() == 0x800
        &&& self.msr_bitmap_1@.len() == 0x800
        &&& self.msr_bitmap_2@.len() == 0x800
        &&& self.msr_bitmap_3@.len() == 0x800
    }

    /// The bytes of the map, one range after the other.
    pub open spec fn bytes(&self) -> Seq<u8> {
        self.msr_bitmap_0@ + self.msr_bitmap_1@ + self.msr_bitmap_2@ + self.msr_bitmap_3@
    }

    pub open spec fn bit(&self, i: int) -> bool {
        seq_bit(self.bytes(), i)
    }

    /// Whether reads of the MSR leave the guest.
    pub open spec fn intercepts_read(&self, msr: u32) -> bool {
        self.bit(read_bit_index(msr))
    }

    /// Whether writes to the MSR leave the guest.
    pub open spec fn intercepts_write(&self, msr: u32) -> bool {
        self.bit(read_bit_index(msr) + 1)
    }

    /// The bytes of the map as the processor reads them: the four ranges
    /// one after the other.
    pub fn to_bytes(&self) -> (r: Vec<u8>)
        ensures
            r@ == self.bytes(),
    {
        let mut out: Vec<u8> = Vec::new();
        Self::append(&mut out, &self.msr_bitmap_0);
        Self::append(&mut out, &self.msr_bitmap_1);
        Self::append(&mut out, &self.msr_bitmap_2);
        Self::append(&mut out, &self.msr_bitmap_3);
        out
    }

    fn append(out: &mut Vec<u8>, part: &Vec<u8>)
        ensures
            final(out)@ == old(out)@ + part@,
    {
        let mut i: usize = 0;
        while i < part.len()
            invariant
                i <= part@.len(),
                out@ == old(out)@ + part@.take(i as int),
            decreases part@.len() - i,
        {
            out.push(part[i]);
            i = i + 1;
            assert(out@ =~= old(out)@ + part@.take(i as int));
        }
        assert(part@.take(i as int) =~= part@);
    }

    /// A map that intercepts nothing.
    pub fn new() -> (r: Self)
        ensures
            r.wf(),
            forall|i: int| 0 <= i < 0x2000 ==> #[trigger] r.bytes()[i] == 0,
            forall|i: int| 0 <= i < 0x10000 ==> !#[trigger] r.bit(i),
    {
        let mut instance = MsrBitmap {
            msr_bitmap_0: vec![0u8; 0x800],
            msr_bitmap_1: vec![0u8; 0x800],
            msr_bitmap_2: vec![0u8; 0x800],
            msr_bitmap_3: vec![0u8; 0x800],
        };
        instance.initialize_bitmap();
        assert forall|i: int| 0 <= i < 0x2000 implies #[trigger] instance.bytes()[i] == 0 by {
            if i < 0x800 {
                assert(instance.bytes()[i] == instance.msr_bitmap_0@[i]);
            } else if i < 0x1000 {
                assert(instance.bytes()[i] == instance.msr_bitmap_1@[i - 0x800]);
            } else if i < 0x1800 {
                assert(instance.bytes()[i] == instance.msr_bitmap_2@[i - 0x1000]);
            } else {
                assert(instance.bytes()[i] == instance.msr_bitmap_3@[i - 0x1800]);
            }
        }
        assert forall|i: int| 0 <= i < 0x10000 implies !#[trigger] instance.bit(i) by {
            let s = (i % 8) as u8;
            assert(s < 8 ==> ((0u8 >> s) & 1u8) != 1u8) by (bit_vector);
            assert(instance.bytes()[i / 8] == 0);
        }
        instance
    }

    /// Clears the bits that the bitmap header covers: the header is made
    /// with the size of the map in bytes, which Windows takes as a number
    /// of bits, so the first 0x2000 bits (0x400 bytes) are cleared.
    fn initialize_bitmap(&mut self)
        requires
            old(self).wf(),
        ensures
            final(self).wf(),
            final(self).bytes() == Seq::new(
                0x2000,
                |i: int|
                    if i < 0x400 {
                        0u8
                    } else {
                        old(self).bytes()[i]
                    },
            ),
    {
        let ghost old_bytes = self.bytes();
        let mut i: usize = 0;
        while i < 0x400
            invariant
                self.wf(),
                i <= 0x400,
                self.msr_bitmap_1@ == old(self).msr_bitmap_1@,
                self.msr_bitmap_2@ == old(self).msr_bitmap_2@,
                self.msr_bitmap_3@ == old(self).msr_bitmap_3@,
                forall|j: int|
                    0 <= j < 0x800 ==> #[trigger] self.msr_bitmap_0@[j] == if j < i {
                        0u8
                    } else {
                        old(self).msr_bitmap_0@[j]
                    },
            decreases 0x400 - i,
        {
            self.msr_bitmap_0.set(i, 0);
            i = i + 1;
        }
        assert(self.bytes() =~= Seq::new(
            0x2000,
            |i: int|
                if i < 0x400 {
                    0u8
                } else {
                    old_bytes[i]
                },
        ));
    }

    /// The header Windows needs to work on the map at `bitmap_address`.
    pub fn bitmap_header(bitmap_address: u64) -> (r: RTL_BITMAP)
        ensures
            r.SizeOfBitMap == 0x2000,
            r.Buffer == bitmap_address,
    {
        RTL_BITMAP { SizeOfBitMap: 0x2000, Buffer: bitmap_address }
    }

    /// Sets bit `index` of the map.
    fn set_bits(&mut self, index: u32)
        requires
            old(self).wf(),
            index < 0x10000,
        ensures
            final(self).wf(),
            final(self).bytes() == set_bit_spec(old(self).bytes(), index as int),
    {
        let byte = (index / 8) as usize;
        let mask: u8 = 1u8 << ((index % 8) as u8);
        let ghost b = self.bytes();
        if byte < 0x800 {
            let v = self.msr_bitmap_0[byte] | mask;
            self.msr_bitmap_0.set(byte, v);
        } else if byte < 0x1000 {
            let v = self.msr_bitmap_1[byte - 0x800] | mask;
            self.msr_bitmap_1.set(byte - 0x800, v);
        } else if byte < 0x1800 {
            let v = self.msr_bitmap_2[byte - 0x1000] | mask;
            self.msr_bitmap_2.set(byte - 0x1000, v);
        } else {
            let v = self.msr_bitmap_3[byte - 0x1800] | mask;
            self.msr_bitmap_3.set(byte - 0x1800, v);
        }
        assert(self.bytes() =~= set_bit_spec(b, index as int));
    }

    /// Intercepts reads of and writes to the MSR.
    pub fn hook_msr(&mut self, msr: u32)
        requires
            old(self).wf(),
        ensures
            final(self).wf(),
            final(self).bytes() == set_bit_spec(
                set_bit_spec(old(self).bytes(), read_bit_index(msr) + 1),
                read_bit_index(msr),
            ),
    {
        self.hook_wrmsr(msr);
        self.hook_rdmsr(msr);
    }

    /// Intercepts reads of the MSR.
    pub fn hook_rdmsr(&mut self, msr: u32)
        requires
            old(self).wf(),
        ensures
            final(self).wf(),
            final(self).bytes() == set_bit_spec(old(self).bytes(), read_bit_index(msr)),
    {
        let offset = Self::msr_range(msr) + Self::msr_offset(msr);
        self.set_bits(offset);
    }

    /// Intercepts writes to the MSR.
    pub fn hook_wrmsr(&mut self, msr: u32)
        requires
            old(self).wf(),
        ensures
            final(self).wf(),
            final(self).bytes() == set_bit_spec(old(self).bytes(), read_bit_index(msr) + 1),
    {
        let offset = Self::msr_range(msr) + Self::msr_offset(msr);
        self.set_bits(offset + 1);
    }

    fn msr_offset(msr: u32) -> (r: u32)
        ensures
            r == msr_offset_spec(msr),
            r <= 0x3ffe,
    {
        proof {
            lemma_msr_offset_bound(msr);
        }
        (msr & 0x1fff) * BITS_PER_MSR
    }

    /// Returns the offset to the range for the specified MSR.
    fn msr_range(msr: u32) -> (r: u32)
        ensures
            r == msr_range_spec(msr),
    {
        if msr <= 0x0000_1FFF {
            0
        } else if 0xC000_0000 <= msr && msr <= 0xC000_1FFF {
            RANGE_SIZE
        } else if 0xC001_0000 <= msr && msr <= 0xC001_1FFF {
            2 * RANGE_SIZE
        } else {
            3 * RANGE_SIZE
        }
    }

    /// Meant to set a bit of the map without the Windows bitmap routines;
    /// it leaves the map as it is.
    fn set_bit(&mut self, msr: u32)
        ensures
            *final(self) == *old(self),
    {
        let _range: u32 = 0;
        let _offset = msr & 0xffff;
    }

    /// Hooking an MSR intercepts its reads and writes, and every other MSR
    /// (one whose pair of bits differs) is intercepted as before.
    pub proof fn lemma_hook_msr(&self, hooked: &Self, msr: u32)
        requires
            self.wf(),
            hooked.bytes() == set_bit_spec(
                set_bit_spec(self.bytes(), read_bit_index(msr) + 1),
                read_bit_index(msr),
            ),
        ensures
            hooked.intercepts_read(msr),
            hooked.intercepts_write(msr),
            forall|other: u32|
                read_bit_index(other) != read_bit_index(msr) ==> #[trigger] hooked.intercepts_read(other)
                    == self.intercepts_read(other) && hooked.intercepts_write(other)
                    == self.intercepts_write(other),
    {
        lemma_msr_offset_bound(msr);
        let r = read_bit_index(msr);
        let b1 = set_bit_spec(self.bytes(), r + 1);
        lemma_set_bit(self.bytes(), r + 1, r + 1);
        lemma_set_bit(b1, r, r);
        lemma_set_bit(b1, r, r + 1);
        assert forall|other: u32| read_bit_index(other) != r implies #[trigger] hooked.intercepts_read(other)
            == self.intercepts_read(other) && hooked.intercepts_write(other) == self.intercepts_write(
            other,
        ) by {
            let o = read_bit_index(other);
            lemma_msr_bits(other, msr);
            lemma_set_bit(self.bytes(), r + 1, o);
            lemma_set_bit(b1, r, o);
            lemma_set_bit(self.bytes(), r + 1, o + 1);
            lemma_set_bit(b1, r, o + 1);
        }
    }
}

/// Each MSR has its own pair of bits, even and inside the map, and two MSRs
/// share them exactly when they are in the same range and agree in their
/// low 13 bits.
pub proof fn lemma_msr_bits(msr: u32, other: u32)
    ensures
        0 <= read_bit_index(msr),
        read_bit_index(msr) + 1 < 0x10000,
        read_bit_index(msr) % 2 == 0,
        read_bit_index(msr) == read_bit_index(other) <==> msr_range_spec(msr) == msr_range_spec(
            other,
        ) && msr & 0x1fffu32 == other & 0x1fffu32,
{
    lemma_msr_offset_bound(msr);
    lemma_msr_offset_bound(other);
}

/// Setting a bit twice is setting it once, and setting two bits does not
/// depend on the order.
pub proof fn lemma_set_bit_idempotent_commutes(bytes: Seq<u8>, i: int, j: int)
    requires
        0 <= i < bytes.len() * 8,
        0 <= j < bytes.len() * 8,
    ensures
        set_bit_spec(set_bit_spec(bytes, i), i) == set_bit_spec(bytes, i),
        set_bit_spec(set_bit_spec(bytes, i), j) == set_bit_spec(set_bit_spec(bytes, j), i),
{
    let bi = bytes[i / 8];
    let si = (i % 8) as u8;
    let sj = (j % 8) as u8;
    assert((bi | (1u8 << si)) | (1u8 << si) == bi | (1u8 << si) && (bi | (1u8 << si)) | (1u8 << sj)
        == (bi | (1u8 << sj)) | (1u8 << si)) by (bit_vector);
    assert(set_bit_spec(set_bit_spec(bytes, i), i) =~= set_bit_spec(bytes, i));
    if i / 8 == j / 8 {
    }
    assert(set_bit_spec(set_bit_spec(bytes, i), j) =~= set_bit_spec(set_bit_spec(bytes, j), i));
}

} // verus!
