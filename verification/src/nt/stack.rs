//! The return address of a call, found by looking for a call instruction
//! right before the stack words that point into the kernel.
use vstd::prelude::*;

verus! {

/// The opcode of `call rel32` (call near, relative), 5 bytes long.
pub const REL_NEAR_OPCODE: u8 = 0xE8;
pub const REL_NEAR_SIZE: u64 = 5;

/// The opcode of `call r/m64` (call near, absolute indirect), 2 bytes long.
pub const CALL_NEAR_ABS_IND_OPCODE: u8 = 0xFF;
pub const CALL_NEAR_ABS_IND_SIZE: u64 = 2;

/// The opcode of `call m16:64` (call far, absolute indirect), 3 bytes long,
/// such as `call qword ptr [rax+28h]` (FF 50 28).
pub const CALL_FAR_ABS_IND_OPCODE: u8 = 0xFF;
pub const CALL_FAR_ABS_IND_SIZE: u64 = 3;

/// The REX.W prefix of a 7 byte call through a RIP-relative import, such as
/// `call qword ptr [rip+disp32]` (48 FF 15 ..).
pub const CUSTOM_OPCODE: u8 = 0x48;
pub const CUSTOM_SIZE: u64 = 7;

/// Addresses below this one are not return addresses into the kernel.
pub const MIN_RETURN_ADDRESS: u64 = 0x7FFF_FFFF_FFFF;

/// What was read around one word of the stack: the word, when the slot is
/// valid memory, whether the word is a valid address, and the byte found
/// 5, 2, 3 and 7 bytes before that address, each when valid memory.
#[derive(Debug, Clone, Copy, PartialEq, Eq, Structural)]
pub struct StackSlot {
    pub value: Option<u64>,
    pub value_is_valid: bool,
    pub byte_before_5: Option<u8>,
    pub byte_before_2: Option<u8>,
    pub byte_before_3: Option<u8>,
    pub byte_before_7: Option<u8>,
}

/// Whether the bytes before the slot's word hold one of the call opcodes at
/// the call's distance.
pub open spec fn preceded_by_call(s: StackSlot) -> bool {
    ||| s.byte_before_5 == Some(REL_NEAR_OPCODE)
    ||| s.byte_before_2 == Some(CALL_NEAR_ABS_IND_OPCODE)
    ||| s.byte_before_3 == Some(CALL_FAR_ABS_IND_OPCODE)
    ||| s.byte_before_7 == Some(CUSTOM_OPCODE)
}

/// The return address one slot holds: its word, if it was read, is at
/// least `MIN_RETURN_ADDRESS`, is a valid address and follows a call.
pub open spec fn slot_return_address(s: StackSlot) -> Option<u64> {
    match s.value {
        Some(v) if v >= MIN_RETURN_ADDRESS && s.value_is_valid && preceded_by_call(s) => Some(v),
        _ => None,
    }
}

/// The return address of the first slot that holds one.
pub open spec fn first_return_address(slots: Seq<StackSlot>) -> Option<u64>
    decreases slots.len(),
{
    if slots.len() == 0 {
        None
    } else {
        match slot_return_address(slots[0]) {
            Some(a) => Some(a),
            None => first_return_address(slots.drop_first()),
        }
    }
}

/// Whether a byte read before a word is the opcode: it must have been read
/// and be equal to it.
fn valid_opcode(byte: Option<u8>, opcode: u8) -> (r: bool)
    ensures
        r == (byte == Some(opcode)),
{
    match byte {
        Some(b) => b == opcode,
        None => false,
    }
}

/// The return address of the first of the stack slots `slots` (words from
/// the stack pointer upwards) that holds a kernel address right after a
/// call instruction, if any.
pub fn find_return_address_manual(slots: &Vec<StackSlot>) -> (r: Option<u64>)
    ensures
        r == first_return_address(slots@),
{
    let mut i: usize = 0;
    assert(slots@.skip(0) =~= slots@);
    while i < slots.len()
        invariant
            i <= slots@.len(),
            first_return_address(slots@) == first_return_address(slots@.skip(i as int)),
        decreases slots@.len() - i,
    {
        let slot = slots[i];
        proof {
            assert(slots@.skip(i as int)[0] == slot);
            assert(slots@.skip(i as int).drop_first() =~= slots@.skip(i + 1));
        }
        match slot.value {
            None => {},
            Some(ret_addr) => {
                if ret_addr >= MIN_RETURN_ADDRESS && slot.value_is_valid {
                    if valid_opcode(slot.byte_before_5, REL_NEAR_OPCODE) {
                        return Some(ret_addr);
                    }
                    if valid_opcode(slot.byte_before_2, CALL_NEAR_ABS_IND_OPCODE) {
                        return Some(ret_addr);
                    }
                    if valid_opcode(slot.byte_before_3, CALL_FAR_ABS_IND_OPCODE) {
                        return Some(ret_addr);
                    }
                    if valid_opcode(slot.byte_before_7, CUSTOM_OPCODE) {
                        return Some(ret_addr);
                    }
                }
            },
        }
        i = i + 1;
    }
    assert(slots@.skip(i as int).len() == 0);
    None
}

} // verus!
