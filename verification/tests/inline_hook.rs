use amd_hypervisor::nt::inline_hook::{
    DecodedInstruction, FlowKind, InlineHook, InlineHookError, TrampolineInstruction, JMP_SHELLCODE_LEN,
};

fn instr(len: usize, flow: FlowKind, next_ip: u64) -> DecodedInstruction {
    DecodedInstruction { invalid: false, len, flow, call_near: false, near_branch_target: 0, next_ip }
}

/// mov [rsp+8], rbx; mov [rsp+10h], rsi; push rdi; sub rsp, 20h; then nops.
fn prologue() -> Vec<u8> {
    let mut bytes = vec![
        0x48, 0x89, 0x5C, 0x24, 0x08, 0x48, 0x89, 0x74, 0x24, 0x10, 0x57, 0x48, 0x83, 0xEC, 0x20,
    ];
    bytes.resize(2 * JMP_SHELLCODE_LEN, 0x90);
    bytes
}

#[test]
fn jmp_shellcode_holds_the_target() {
    let code = InlineHook::jmp_shellcode(0x1122_3344_5566_7788);
    assert_eq!(code, [0xff, 0x25, 0, 0, 0, 0, 0x88, 0x77, 0x66, 0x55, 0x44, 0x33, 0x22, 0x11]);
    assert_eq!(u64::from_le_bytes(code[6..14].try_into().unwrap()), 0x1122_3344_5566_7788);
    let hook = InlineHook::from_parts(1, 2, 0xdead_beef);
    assert_eq!(hook.enable(), InlineHook::jmp_shellcode(0xdead_beef));
    assert_eq!(hook.trampoline_address(), 1);
    assert_eq!(hook.address(), 2);
    assert_eq!(hook.handler_address(), 0xdead_beef);
}

#[test]
fn trampoline_copies_until_the_jump_fits() {
    let instrs = vec![
        instr(5, FlowKind::Next, 0x105),
        instr(5, FlowKind::Next, 0x10a),
        instr(1, FlowKind::Next, 0x10b),
        instr(4, FlowKind::Next, 0x10f),
        instr(3, FlowKind::Next, 0x112),
    ];
    let plan = InlineHook::trampoline_instructions(&instrs).ok().unwrap();
    assert_eq!(plan.total_bytes, 15);
    assert_eq!(
        plan.instructions,
        vec![
            TrampolineInstruction::Original(0),
            TrampolineInstruction::Original(1),
            TrampolineInstruction::Original(2),
            TrampolineInstruction::Original(3),
            TrampolineInstruction::JmpTo(0x10f),
        ]
    );
}

#[test]
fn trampoline_relocates_calls_and_ends_on_return() {
    let call = DecodedInstruction {
        invalid: false,
        len: 5,
        flow: FlowKind::Call,
        call_near: true,
        near_branch_target: 0x5000,
        next_ip: 0x105,
    };
    let far_call = DecodedInstruction { call_near: false, len: 7, ..call };
    let instrs = vec![
        call,
        instr(2, FlowKind::Other, 0x107),
        far_call,
        instr(8, FlowKind::Next, 0x10f),
        instr(1, FlowKind::Return, 0x110),
    ];
    let plan = InlineHook::trampoline_instructions(&instrs).ok().unwrap();
    assert_eq!(plan.total_bytes, 14);
    assert_eq!(
        plan.instructions,
        vec![
            TrampolineInstruction::JmpTo(0x5000),
            TrampolineInstruction::Original(3),
            TrampolineInstruction::Original(4),
        ]
    );
    // A trampoline that ends on a relocated call jumps back to address 0.
    let instrs = vec![instr(10, FlowKind::Next, 0x10a), DecodedInstruction { len: 5, ..call }];
    let plan = InlineHook::trampoline_instructions(&instrs).ok().unwrap();
    assert_eq!(plan.instructions[2], TrampolineInstruction::JmpTo(0));
}

#[test]
fn trampoline_errors() {
    let invalid = DecodedInstruction { invalid: true, ..instr(1, FlowKind::Next, 1) };
    assert_eq!(
        InlineHook::trampoline_instructions(&vec![instr(3, FlowKind::Next, 3), invalid]).err(),
        Some(InlineHookError::InvalidBytes)
    );
    assert_eq!(
        InlineHook::trampoline_instructions(&vec![instr(13, FlowKind::Next, 13)]).err(),
        Some(InlineHookError::NotEnoughBytes)
    );
    assert_eq!(
        InlineHook::trampoline_instructions(&vec![instr(15, FlowKind::Other, 15)]).err(),
        Some(InlineHookError::NotEnoughBytes)
    );
    assert_eq!(InlineHook::trampoline_instructions(&vec![]).err(), Some(InlineHookError::NotEnoughBytes));
    // Instructions after the jump fits are not looked at.
    let plan = InlineHook::trampoline_instructions(&vec![instr(14, FlowKind::Next, 14), invalid]);
    assert!(plan.is_ok());
}

#[test]
fn trampoline_shellcode_encodes_at_the_new_place() {
    let bytes = prologue();
    let (memory, code) = InlineHook::trampoline_shellcode(0x1000_0000, &bytes, |n| {
        assert_eq!(n, 15);
        Some(0x2000_0000)
    })
    .ok()
    .unwrap();
    assert_eq!(memory, 0x2000_0000);
    assert_eq!(code.len(), 20);
    assert_eq!(code[..15], bytes[..15]);
    assert_eq!(code[15], 0xE9);
    let rel = i32::from_le_bytes(code[16..20].try_into().unwrap()) as i64;
    assert_eq!(0x2000_0000i64 + 20 + rel, 0x1000_000F);
}

#[test]
fn trampoline_shellcode_failures() {
    let bytes = prologue();
    assert_eq!(
        InlineHook::trampoline_shellcode(0x1000_0000, &bytes, |_| None).err(),
        Some(InlineHookError::AllocationFailed)
    );
    // Bytes that are no instruction.
    let bad = vec![0x06; 28];
    assert_eq!(
        InlineHook::trampoline_shellcode(0x1000_0000, &bad, |_| Some(0x2000_0000)).err(),
        Some(InlineHookError::InvalidBytes)
    );
    // Too few bytes for the jump.
    assert_eq!(
        InlineHook::trampoline_shellcode(0x1000_0000, &vec![0x90; 10], |_| Some(0x2000_0000)).err(),
        Some(InlineHookError::NotEnoughBytes)
    );
}

#[test]
fn new_hook_is_not_enabled() {
    let bytes = prologue();
    let (hook, code) = InlineHook::new(0x1000_0000, 0x3000_0010, 0x4000_0000, &bytes, |_| Some(0x2000_0000)).unwrap();
    assert_eq!(hook.address(), 0x3000_0010);
    assert_eq!(hook.handler_address(), 0x4000_0000);
    assert_eq!(hook.trampoline_address(), 0x2000_0000);
    assert_eq!(code.len(), 20);
    assert!(InlineHook::new(0x1000_0000, 0x3000_0010, 0x4000_0000, &bytes, |_| None).is_none());
}
