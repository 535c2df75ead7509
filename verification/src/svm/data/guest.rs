//! The guest's general purpose registers, as the #VMEXIT stub saves them.
use vstd::prelude::*;

verus! {

/// The general purpose registers of the guest at a #VMEXIT.
#[derive(Debug, Clone, Copy)]
pub struct GuestRegisters {
    pub r15: u64,
    pub r14: u64,
    pub r13: u64,
    pub r12: u64,
    pub r11: u64,
    pub r10: u64,
    pub r9: u64,
    pub r8: u64,
    pub rdi: u64,
    pub rsi: u64,
    pub rbp: u64,
    pub rsp: u64,
    pub rbx: u64,
    pub rdx: u64,
    pub rcx: u64,
    pub rax: u64,
}

} // verus!
