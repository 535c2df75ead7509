//! Inline hooks: a jump at the start of a function to a handler, and a
//! trampoline that runs the overwritten instructions and jumps back.
use vstd::prelude::*;

use iced_x86::{
    BlockEncoder, BlockEncoderOptions, Code, Decoder, DecoderOptions, FlowControl, Instruction,
    InstructionBlock,
};

verus! {

/// Length of the jump shellcode.
pub const JMP_SHELLCODE_LEN: usize = 14;

#[derive(Debug, Clone, Copy, PartialEq, Eq, Structural)]
pub enum InlineHookError {
    /// Failed to parse bytes of original function
    InvalidBytes,
    /// Couldn't find enough space for the jump shellcode
    NotEnoughBytes,
    /// Failed to find original instructions
    NoInstructions,
    /// Failed to allocate memory for trampoline
    AllocationFailed,
    /// Failed to encode trampoline
    EncodingFailed,
}

/// An inline hook: the function at `address` jumps to `handler`, and the
/// trampoline at `trampoline` runs what the jump overwrote.
#[derive(Debug, Clone, Copy)]
pub struct InlineHook {
    trampoline: u64,
    address: u64,
    handler: u64,
    enabled: bool,
}

/// Byte `i` (0 to 7) of `v`, lowest first.
pub open spec fn le_byte(v: u64, i: int) -> u8 {
    ((v >> ((8 * i) as u64)) & 0xffu64) as u8
}

/// The longest x86 instruction, in bytes.
pub const MAX_INSTRUCTION_LEN: usize = 15;

/// How an instruction continues: with the next one, by returning, by a
/// call, or otherwise (a branch, an interrupt, an exception).
#[derive(Debug, Clone, Copy, PartialEq, Eq, Structural)]
pub enum FlowKind {
    Next,
    Return,
    Call,
    Other,
}

/// What the trampoline needs to know of a decoded instruction.
#[derive(Debug, Clone, Copy, PartialEq, Eq, Structural)]
pub struct DecodedInstruction {
    /// The bytes are no valid instruction.
    pub invalid: bool,
    /// Its length in bytes.
    pub len: usize,
    pub flow: FlowKind,
    /// It is a near call.
    pub call_near: bool,
    /// Where it branches to, for a near branch (else 0).
    pub near_branch_target: u64,
    /// The address after it.
    pub next_ip: u64,
}

/// An instruction of the trampoline: one of the decoded instructions, by its
/// index, or a `jmp rel32` to an address.
#[derive(Debug, Clone, Copy, PartialEq, Eq, Structural)]
pub enum TrampolineInstruction {
    Original(usize),
    JmpTo(u64),
}

/// The instructions the 64-bit decoder of `iced_x86` reads from `bytes`,
/// the first at address `ip`, until the bytes run out.
pub uninterp spec fn decoded(bytes: Seq<u8>, ip: u64) -> Seq<DecodedInstruction>;

/// The machine code the block encoder of `iced_x86` makes of the
/// instructions of `plan` placed at `rip`, `Original(k)` standing for the
/// `k`th instruction decoded from `bytes` at `ip`; none when it fails.
pub uninterp spec fn trampoline_encoding(
    bytes: Seq<u8>,
    ip: u64,
    plan: Seq<TrampolineInstruction>,
    rip: u64,
) -> Option<Seq<u8>>;

/// Every instruction is at most `MAX_INSTRUCTION_LEN` bytes long.
pub open spec fn lengths_ok(instrs: Seq<DecodedInstruction>) -> bool {
    forall|k: int| 0 <= k < instrs.len() ==> #[trigger] instrs[k].len <= MAX_INSTRUCTION_LEN
}

/// Decodes `bytes` with `iced_x86::Decoder::with_ip` in 64-bit mode and no
/// options, the first instruction at `ip`, and keeps of each instruction
/// what `DecodedInstruction` holds (`is_invalid`, `len`, `flow_control`,
/// `is_call_near`, `near_branch_target`, `next_ip`). The result is named
/// `decoded`; the decoder's documentation gives every length as 0 to 15.
#[verifier::external_body]
fn decode_instructions(bytes: &Vec<u8>, ip: u64) -> (r: Vec<DecodedInstruction>)
    ensures
        r@ == decoded(bytes@, ip),
        lengths_ok(r@),
{
    let decoder = Decoder::with_ip(64, bytes.as_slice(), ip, DecoderOptions::NONE);
    decoder.into_iter().map(|i| DecodedInstruction {
        invalid: i.is_invalid(),
        len: i.len(),
        flow: match i.flow_control() {
            FlowControl::Next => FlowKind::Next,
            FlowControl::Return => FlowKind::Return,
            FlowControl::Call => FlowKind::Call,
            _ => FlowKind::Other,
        },
        call_near: i.is_call_near(),
        near_branch_target: i.near_branch_target(),
        next_ip: i.next_ip(),
    }).collect()
}

/// Encodes the trampoline with `iced_x86::BlockEncoder::encode` in 64-bit
/// mode and no options, the block placed at `rip`: each `Original(k)` is the
/// `k`th instruction `Decoder::with_ip` reads from `bytes` at `ip`, each
/// `JmpTo(t)` is `Instruction::with_branch(Code::Jmp_rel32_64, t)` (which
/// only fails for a code without near branch). The result is named
/// `trampoline_encoding`.
#[verifier::external_body]
fn encode_trampoline(bytes: &Vec<u8>, ip: u64, plan: &Vec<TrampolineInstruction>, rip: u64) -> (r: Option<Vec<u8>>)
    requires
        indices_below(plan@, decoded(bytes@, ip).len() as int),
    ensures
        match r {
            Some(v) => trampoline_encoding(bytes@, ip, plan@, rip) == Some(v@),
            None => trampoline_encoding(bytes@, ip, plan@, rip) == None::<Seq<u8>>,
        },
{
    let decoded: Vec<Instruction> = Decoder::with_ip(64, bytes.as_slice(), ip, DecoderOptions::NONE).into_iter().collect();
    let instructions: Vec<Instruction> = plan.iter().map(|p| match p {
        TrampolineInstruction::Original(k) => decoded[*k],
        TrampolineInstruction::JmpTo(t) => Instruction::with_branch(Code::Jmp_rel32_64, *t).unwrap(),
    }).collect();
    let block = InstructionBlock::new(&instructions, rip);
    BlockEncoder::encode(64, block, BlockEncoderOptions::NONE).ok().map(|b| b.code_buffer)
}

/// The trampoline and the length of code it takes over.
pub struct TrampolinePlan {
    pub instructions: Vec<TrampolineInstruction>,
    pub total_bytes: usize,
}

/// The trampoline after instruction `i`: instructions that continue with
/// the next one or return are copied, a near call becomes a `jmp` to its
/// target, everything else is left out; the copied and replaced
/// instructions count towards the bytes taken over.
pub open spec fn advance(
    instrs: Seq<DecodedInstruction>,
    i: int,
    plan: Seq<TrampolineInstruction>,
    total: int,
) -> (Seq<TrampolineInstruction>, int) {
    let ins = instrs[i];
    match ins.flow {
        FlowKind::Next | FlowKind::Return => (plan.push(TrampolineInstruction::Original(i as usize)), total + ins.len),
        FlowKind::Call => if ins.call_near {
            (plan.push(TrampolineInstruction::JmpTo(ins.near_branch_target)), total + ins.len)
        } else {
            (plan, total)
        },
        FlowKind::Other => (plan, total),
    }
}

/// Goes through the instructions from `i` on until `JMP_SHELLCODE_LEN`
/// bytes are taken over or they run out; an invalid instruction on the way
/// fails.
pub open spec fn scan_from(
    instrs: Seq<DecodedInstruction>,
    i: int,
    plan: Seq<TrampolineInstruction>,
    total: int,
) -> Result<(Seq<TrampolineInstruction>, int), InlineHookError>
    decreases instrs.len() - i,
{
    if i < 0 || i >= instrs.len() {
        Ok((plan, total))
    } else if instrs[i].invalid {
        Err(InlineHookError::InvalidBytes)
    } else {
        let (p, t) = advance(instrs, i, plan, total);
        if t >= JMP_SHELLCODE_LEN {
            Ok((p, t))
        } else {
            scan_from(instrs, i + 1, p, t)
        }
    }
}

/// Whether the last trampoline instruction returns, and the address after
/// it (0 for a `jmp` the trampoline creates).
pub open spec fn ends_with(instrs: Seq<DecodedInstruction>, e: TrampolineInstruction) -> (bool, u64) {
    match e {
        TrampolineInstruction::Original(k) => (instrs[k as int].flow == FlowKind::Return, instrs[k as int].next_ip),
        TrampolineInstruction::JmpTo(_) => (false, 0),
    }
}

/// How the trampoline ends once the instructions `plan` take over `total`
/// bytes: `NotEnoughBytes` below `JMP_SHELLCODE_LEN` bytes,
/// `NoInstructions` without instructions, else the instructions followed by
/// a `jmp` to the address after the last one unless that one returns.
pub open spec fn finish_spec(
    instrs: Seq<DecodedInstruction>,
    plan: Seq<TrampolineInstruction>,
    total: int,
) -> Result<(Seq<TrampolineInstruction>, int), InlineHookError> {
    if total < JMP_SHELLCODE_LEN {
        Err(InlineHookError::NotEnoughBytes)
    } else if plan.len() == 0 {
        Err(InlineHookError::NoInstructions)
    } else {
        let (is_return, next) = ends_with(instrs, plan.last());
        if is_return {
            Ok((plan, total))
        } else {
            Ok((plan.push(TrampolineInstruction::JmpTo(next)), total))
        }
    }
}

/// The trampoline for the decoded instructions `instrs`: the scan's error,
/// or how it ends after the scan.
pub open spec fn trampoline_plan(instrs: Seq<DecodedInstruction>) -> Result<(Seq<TrampolineInstruction>, int), InlineHookError> {
    match scan_from(instrs, 0, Seq::empty(), 0) {
        Err(e) => Err(e),
        Ok((p, t)) => finish_spec(instrs, p, t),
    }
}

/// Whether a computed plan is the one described.
pub open spec fn plan_is(r: Result<TrampolinePlan, InlineHookError>, s: Result<(Seq<TrampolineInstruction>, int), InlineHookError>) -> bool {
    match s {
        Ok((p, t)) => match r {
            Ok(plan) => plan.instructions@ == p && plan.total_bytes == t,
            Err(_) => false,
        },
        Err(e) => r == Err::<TrampolinePlan, InlineHookError>(e),
    }
}

/// A plan's `Original` indices all name one of `n` instructions.
pub open spec fn plan_indices_below(r: Result<TrampolinePlan, InlineHookError>, n: int) -> bool {
    match r {
        Ok(plan) => indices_below(plan.instructions@, n),
        Err(_) => true,
    }
}

/// Every `Original` index of the plan names one of `n` instructions.
pub open spec fn indices_below(plan: Seq<TrampolineInstruction>, n: int) -> bool {
    forall|j: int|
        0 <= j < plan.len() ==> match #[trigger] plan[j] {
            TrampolineInstruction::Original(k) => k < n,
            TrampolineInstruction::JmpTo(_) => true,
        }
}

/// `code` is `jmp [rip+0]` (FF 25 00 00 00 00) followed by `target`,
/// lowest byte first.
pub open spec fn is_jmp_shellcode(code: Seq<u8>, target: u64) -> bool {
    &&& code.len() == 14
    &&& code[0] == 0xff && code[1] == 0x25 && code[2] == 0 && code[3] == 0 && code[4] == 0 && code[5] == 0
    &&& forall|i: int| 0 <= i < 8 ==> #[trigger] code[6 + i] == le_byte(target, i)
}

/// What making the trampoline for the function whose first bytes are
/// `bytes`, at `original_address`, may give when memory comes from
/// `allocate`: the plan's error; `AllocationFailed` when `allocate` gave
/// nothing for the bytes taken over; `EncodingFailed` when the trampoline
/// does not encode at the memory `allocate` gave; or that memory and the
/// trampoline's code there.
pub open spec fn trampoline_outcome<F: Fn(usize) -> Option<u64>>(
    allocate: F,
    original_address: u64,
    bytes: Seq<u8>,
    r: Result<(u64, Seq<u8>), InlineHookError>,
) -> bool {
    match trampoline_plan(decoded(bytes, original_address)) {
        Err(e) => r == Err::<(u64, Seq<u8>), InlineHookError>(e),
        Ok((p, t)) => match r {
            Err(InlineHookError::AllocationFailed) => call_ensures(allocate, (t as usize,), None),
            Err(InlineHookError::EncodingFailed) => exists|m: u64|
                call_ensures(allocate, (t as usize,), Some(m)) && #[trigger] trampoline_encoding(
                    bytes,
                    original_address,
                    p,
                    m,
                ) == None::<Seq<u8>>,
            Err(_) => false,
            Ok((m, code)) => call_ensures(allocate, (t as usize,), Some(m)) && trampoline_encoding(
                bytes,
                original_address,
                p,
                m,
            ) == Some(code),
        },
    }
}

/// The view of a trampoline result.
pub open spec fn outcome_view(r: Result<(u64, Vec<u8>), InlineHookError>) -> Result<(u64, Seq<u8>), InlineHookError> {
    match r {
        Ok((m, code)) => Ok((m, code@)),
        Err(e) => Err(e),
    }
}

impl InlineHook {
    /// Makes the trampoline for the function whose first
    /// `2 * JMP_SHELLCODE_LEN` bytes are `bytes` and whose original lies at
    /// `original_address` (where its relative branches point from): the
    /// instructions the jump overwrites, plus a jump back. `allocate` gives
    /// memory of the length taken over; the result is that memory and the
    /// code to copy there.
    pub fn trampoline_shellcode<F: Fn(usize) -> Option<u64>>(
        original_address: u64,
        bytes: &Vec<u8>,
        allocate: F,
    ) -> (r: Result<(u64, Vec<u8>), InlineHookError>)
        requires
            forall|n: usize| call_requires(allocate, (n,)),
        ensures
            trampoline_outcome(allocate, original_address, bytes@, outcome_view(r)),
    {
        let instrs = decode_instructions(bytes, original_address);
        let plan = match Self::trampoline_instructions(&instrs) {
            Ok(plan) => plan,
            Err(e) => return Err(e),
        };
        let memory = match allocate(plan.total_bytes) {
            Some(memory) => memory,
            None => return Err(InlineHookError::AllocationFailed),
        };
        match encode_trampoline(bytes, original_address, &plan.instructions, memory) {
            Some(code) => Ok((memory, code)),
            None => Err(InlineHookError::EncodingFailed),
        }
    }

    /// Creates a hook (not yet enabled) of the function at `address`, whose
    /// original lies at `original_address` and starts with `bytes`, that
    /// jumps to `handler`. The trampoline is made by
    /// `trampoline_shellcode`; when that fails there is no hook. The code
    /// to copy to the trampoline's memory comes with the hook.
    pub fn new<F: Fn(usize) -> Option<u64>>(
        original_address: u64,
        address: u64,
        handler: u64,
        bytes: &Vec<u8>,
        allocate: F,
    ) -> (r: Option<(Self, Vec<u8>)>)
        requires
            forall|n: usize| call_requires(allocate, (n,)),
        ensures
            match r {
                Some((hook, code)) => {
                    &&& hook.address_spec() == address
                    &&& hook.handler_spec() == handler
                    &&& !hook.enabled_spec()
                    &&& trampoline_outcome(allocate, original_address, bytes@, Ok((hook.trampoline_spec(), code@)))
                },
                None => exists|e: InlineHookError| #[trigger] trampoline_outcome(allocate, original_address, bytes@, Err::<(u64, Seq<u8>), InlineHookError>(e)),
            },
    {
        match Self::trampoline_shellcode(original_address, bytes, allocate) {
            Ok((trampoline, code)) => Some((Self::from_parts(trampoline, address, handler), code)),
            Err(e) => {
                assert(outcome_view(Err(e)) == Err::<(u64, Seq<u8>), InlineHookError>(e));
                None
            },
        }
    }

    /// The jump to the handler, to write over the start of the hooked
    /// function.
    pub fn enable(&self) -> (r: [u8; 14])
        ensures
            is_jmp_shellcode(r@, self.handler_spec()),
    {
        Self::jmp_shellcode(self.handler)
    }

    fn finish_trampoline(
        instrs: &Vec<DecodedInstruction>,
        trampoline: Vec<TrampolineInstruction>,
        total_bytes: usize,
    ) -> (r: Result<TrampolinePlan, InlineHookError>)
        requires
            indices_below(trampoline@, instrs@.len() as int),
        ensures
            plan_is(r, finish_spec(instrs@, trampoline@, total_bytes as int)),
            plan_indices_below(r, instrs@.len() as int),
    {
        if total_bytes < JMP_SHELLCODE_LEN {
            return Err(InlineHookError::NotEnoughBytes);
        }
        if trampoline.len() == 0 {
            return Err(InlineHookError::NoInstructions);
        }
        let mut trampoline = trampoline;
        let last = trampoline[trampoline.len() - 1];
        let (is_return, jmp_back_address) = match last {
            TrampolineInstruction::Original(k) => {
                assert(trampoline@[trampoline@.len() - 1] == TrampolineInstruction::Original(k));
                (instrs[k].flow == FlowKind::Return, instrs[k].next_ip)
            },
            TrampolineInstruction::JmpTo(_) => (false, 0),
        };
        if !is_return {
            trampoline.push(TrampolineInstruction::JmpTo(jmp_back_address));
        }
        Ok(TrampolinePlan { instructions: trampoline, total_bytes })
    }

    /// The trampoline for the instructions `instrs` decoded at the start of
    /// the function, as `trampoline_plan` gives it.
    pub fn trampoline_instructions(instrs: &Vec<DecodedInstruction>) -> (r: Result<TrampolinePlan, InlineHookError>)
        requires
            lengths_ok(instrs@),
        ensures
            plan_is(r, trampoline_plan(instrs@)),
            plan_indices_below(r, instrs@.len() as int),
    {
        let mut total_bytes: usize = 0;
        let mut trampoline: Vec<TrampolineInstruction> = Vec::new();
        let mut i: usize = 0;
        while i < instrs.len()
            invariant
                i <= instrs@.len(),
                lengths_ok(instrs@),
                total_bytes < JMP_SHELLCODE_LEN,
                scan_from(instrs@, 0, Seq::empty(), 0) == scan_from(instrs@, i as int, trampoline@, total_bytes as int),
                indices_below(trampoline@, i as int),
            decreases instrs@.len() - i,
        {
            let instr = instrs[i];
            if instr.invalid {
                return Err(InlineHookError::InvalidBytes);
            }
            assert(instr.len <= MAX_INSTRUCTION_LEN);
            match instr.flow {
                FlowKind::Next | FlowKind::Return => {
                    total_bytes = total_bytes + instr.len;
                    trampoline.push(TrampolineInstruction::Original(i));
                },
                FlowKind::Call => {
                    if instr.call_near {
                        total_bytes = total_bytes + instr.len;
                        trampoline.push(TrampolineInstruction::JmpTo(instr.near_branch_target));
                    }
                },
                FlowKind::Other => {},
            }
            if total_bytes >= JMP_SHELLCODE_LEN {
                return Self::finish_trampoline(instrs, trampoline, total_bytes);
            }
            i = i + 1;
        }
        Self::finish_trampoline(instrs, trampoline, total_bytes)
    }

    pub closed spec fn trampoline_spec(&self) -> u64 {
        self.trampoline
    }

    pub closed spec fn address_spec(&self) -> u64 {
        self.address
    }

    pub closed spec fn handler_spec(&self) -> u64 {
        self.handler
    }

    pub closed spec fn enabled_spec(&self) -> bool {
        self.enabled
    }

    /// A hook (not yet enabled) of the function at `address` that jumps to
    /// `handler`, with its trampoline at `trampoline`.
    pub fn from_parts(trampoline: u64, address: u64, handler: u64) -> (r: Self)
        ensures
            r.trampoline_spec() == trampoline,
            r.address_spec() == address,
            r.handler_spec() == handler,
            !r.enabled_spec(),
    {
        InlineHook { trampoline, address, handler, enabled: false }
    }

    /// The address of the trampoline.
    pub fn trampoline_address(&self) -> (r: u64)
        ensures
            r == self.trampoline_spec(),
    {
        self.trampoline
    }

    /// The address of the handler.
    pub fn handler_address(&self) -> (r: u64)
        ensures
            r == self.handler_spec(),
    {
        self.handler
    }

    /// The address of the hooked function.
    pub fn address(&self) -> (r: u64)
        ensures
            r == self.address_spec(),
    {
        self.address
    }

    /// The bytes to write over the start of the function: `jmp [rip+0]`
    /// (FF 25 00 00 00 00) followed by the target address, lowest byte
    /// first. The jump needs no register.
    pub fn jmp_shellcode(target_address: u64) -> (r: [u8; 14])
        ensures
            is_jmp_shellcode(r@, target_address),
    {
        let mut shellcode: [u8; 14] = [
            0xff,
            0x25,
            0x00,
            0x00,
            0x00,
            0x00,
            0xCC,
            0xCC,
            0xCC,
            0xCC,
            0xCC,
            0xCC,
            0xCC,
            0xCC,
        ];
        let mut i: usize = 0;
        while i < 8
            invariant
                i <= 8,
                shellcode@.len() == 14,
                shellcode@[0] == 0xff && shellcode@[1] == 0x25 && shellcode@[2] == 0
                    && shellcode@[3] == 0 && shellcode@[4] == 0 && shellcode@[5] == 0,
                forall|j: int| 0 <= j < i ==> #[trigger] shellcode@[6 + j] == le_byte(target_address, j),
            decreases 8 - i,
        {
            shellcode[6 + i] = ((target_address >> ((8 * i) as u64)) & 0xff) as u8;
            i = i + 1;
        }
        shellcode
    }
}

/// The jump shellcode holds its target: its last eight bytes, lowest
/// first, give the target back.
pub proof fn lemma_jmp_shellcode_target(code: Seq<u8>, target: u64)
    requires
        is_jmp_shellcode(code, target),
    ensures
        code[6] as u64 | (code[7] as u64) << 8u64 | (code[8] as u64) << 16u64 | (code[9] as u64)
            << 24u64 | (code[10] as u64) << 32u64 | (code[11] as u64) << 40u64 | (code[12] as u64)
            << 48u64 | (code[13] as u64) << 56u64 == target,
{
    assert(code[6 + 0int] == le_byte(target, 0));
    assert(code[6 + 1int] == le_byte(target, 1));
    assert(code[6 + 2int] == le_byte(target, 2));
    assert(code[6 + 3int] == le_byte(target, 3));
    assert(code[6 + 4int] == le_byte(target, 4));
    assert(code[6 + 5int] == le_byte(target, 5));
    assert(code[6 + 6int] == le_byte(target, 6));
    assert(code[6 + 7int] == le_byte(target, 7));
    let b0 = code[6];
    let b1 = code[7];
    let b2 = code[8];
    let b3 = code[9];
    let b4 = code[10];
    let b5 = code[11];
    let b6 = code[12];
    let b7 = code[13];
    assert(b0 as u64 | (b1 as u64) << 8u64 | (b2 as u64) << 16u64 | (b3 as u64) << 24u64 | (
    b4 as u64) << 32u64 | (b5 as u64) << 40u64 | (b6 as u64) << 48u64 | (b7 as u64) << 56u64
        == target) by (bit_vector)
        requires
            b0 == ((target >> 0u64) & 0xffu64) as u8,
            b1 == ((target >> 8u64) & 0xffu64) as u8,
            b2 == ((target >> 16u64) & 0xffu64) as u8,
            b3 == ((target >> 24u64) & 0xffu64) as u8,
            b4 == ((target >> 32u64) & 0xffu64) as u8,
            b5 == ((target >> 40u64) & 0xffu64) as u8,
            b6 == ((target >> 48u64) & 0xffu64) as u8,
            b7 == ((target >> 56u64) & 0xffu64) as u8,
    ;
}

/// The scan never takes over more than it needs: it stops with the first
/// instruction that reaches `JMP_SHELLCODE_LEN` bytes, so fewer than
/// `JMP_SHELLCODE_LEN + MAX_INSTRUCTION_LEN` bytes are taken over.
proof fn lemma_scan_bound(
    instrs: Seq<DecodedInstruction>,
    i: int,
    plan: Seq<TrampolineInstruction>,
    total: int,
)
    requires
        lengths_ok(instrs),
        0 <= total < JMP_SHELLCODE_LEN,
    ensures
        scan_from(instrs, i, plan, total) matches Ok((_, t)) ==> t < JMP_SHELLCODE_LEN + MAX_INSTRUCTION_LEN,
    decreases instrs.len() - i,
{
    if 0 <= i < instrs.len() && !instrs[i].invalid {
        let (p, t) = advance(instrs, i, plan, total);
        assert(instrs[i].len <= MAX_INSTRUCTION_LEN);
        if t < JMP_SHELLCODE_LEN {
            lemma_scan_bound(instrs, i + 1, p, t);
        }
    }
}

/// A trampoline that is made covers the whole jump without taking over
/// more than one instruction past it, has instructions, and ends by
/// returning or by jumping back (or on a jump it created).
pub proof fn lemma_trampoline_plan_shape(instrs: Seq<DecodedInstruction>)
    requires
        lengths_ok(instrs),
    ensures
        trampoline_plan(instrs) matches Ok((p, t)) ==> {
            &&& JMP_SHELLCODE_LEN <= t < JMP_SHELLCODE_LEN + MAX_INSTRUCTION_LEN
            &&& p.len() > 0
            &&& match p.last() {
                TrampolineInstruction::JmpTo(_) => true,
                TrampolineInstruction::Original(k) => instrs[k as int].flow == FlowKind::Return,
            }
        },
{
    lemma_scan_bound(instrs, 0, Seq::empty(), 0);
}

} // verus!
