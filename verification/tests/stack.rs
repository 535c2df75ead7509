use amd_hypervisor::nt::stack::{find_return_address_manual, StackSlot};
use amd_hypervisor::utils::stack::{find_return_addresses, top_return_address};

fn slot(value: Option<u64>, valid: bool, b5: Option<u8>, b2: Option<u8>, b3: Option<u8>, b7: Option<u8>) -> StackSlot {
    StackSlot {
        value,
        value_is_valid: valid,
        byte_before_5: b5,
        byte_before_2: b2,
        byte_before_3: b3,
        byte_before_7: b7,
    }
}

#[test]
fn top_return_address_needs_a_kernel_address() {
    assert_eq!(top_return_address(0x1000, Some(0xffff_f800_1234_5678)), Some(0xffff_f800_1234_5678));
    assert_eq!(top_return_address(0x1000, Some(0x7FFF_FFFF_FFFF)), None);
    assert_eq!(top_return_address(0x1000, Some(0x8000_0000_0000)), Some(0x8000_0000_0000));
    assert_eq!(top_return_address(0x1000, None), None);
    assert_eq!(top_return_address(0, Some(0xffff_f800_1234_5678)), None);
}

#[test]
fn return_addresses_keep_stack_order() {
    let stack = vec![1, 0xffff_f800_0000_0010, 0x7FFF_FFFF_FFFF, 0xffff_f800_0000_0020, 0];
    assert_eq!(find_return_addresses(&stack), Some(vec![0xffff_f800_0000_0010, 0xffff_f800_0000_0020]));
    assert_eq!(find_return_addresses(&vec![1, 2, 3]), Some(vec![]));
}

#[test]
fn manual_search_finds_a_call_before_the_address() {
    let k = 0xffff_f800_1000_0000u64;
    // Not read, not valid, too low, or not after a call: skipped.
    let slots = vec![
        slot(None, true, Some(0xE8), None, None, None),
        slot(Some(k), false, Some(0xE8), None, None, None),
        slot(Some(0x1000), true, Some(0xE8), None, None, None),
        slot(Some(k + 1), true, Some(0x90), Some(0x90), Some(0x90), Some(0x90)),
        slot(Some(k + 2), true, None, None, Some(0xFF), None),
        slot(Some(k + 3), true, Some(0xE8), None, None, None),
    ];
    assert_eq!(find_return_address_manual(&slots), Some(k + 2));
    // Each opcode at its distance counts.
    assert_eq!(find_return_address_manual(&vec![slot(Some(k), true, Some(0xE8), None, None, None)]), Some(k));
    assert_eq!(find_return_address_manual(&vec![slot(Some(k), true, None, Some(0xFF), None, None)]), Some(k));
    assert_eq!(find_return_address_manual(&vec![slot(Some(k), true, None, None, None, Some(0x48))]), Some(k));
    // The lowest accepted address is 0x7FFF_FFFF_FFFF itself.
    assert_eq!(
        find_return_address_manual(&vec![slot(Some(0x7FFF_FFFF_FFFF), true, Some(0xE8), None, None, None)]),
        Some(0x7FFF_FFFF_FFFF)
    );
    assert_eq!(find_return_address_manual(&slots[..4].to_vec()), None);
    assert_eq!(find_return_address_manual(&vec![]), None);
}
