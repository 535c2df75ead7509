use amd_hypervisor::hook::testing::hook_handler;
use amd_hypervisor::hook::{find_hook, find_hook_by_address, Hook, HookType};
use amd_hypervisor::nt::addresses::PhysicalAddress;

fn page_hook(va: u64, pa: u64) -> Hook {
    Hook {
        original_va: va,
        original_pa: PhysicalAddress::from_pa(pa),
        hook_va: 0x9000,
        hook_pa: PhysicalAddress::from_pa(0x9000),
        page: vec![0; 16],
        page_va: 0x9000,
        page_pa: PhysicalAddress::from_pa(0x9000),
        hook_type: HookType::Page,
    }
}

/// Reads a page of 0x90 bytes with a function prologue at offset 0x123 and
/// places the copy at 0x5000_0000.
fn read_page(_page: u64) -> (Vec<u8>, u64) {
    let mut page = vec![0x90u8; 0x1000];
    let prologue = [0x48, 0x89, 0x5C, 0x24, 0x08, 0x48, 0x89, 0x74, 0x24, 0x10, 0x57, 0x48, 0x83, 0xEC, 0x20];
    page[0x123..0x123 + prologue.len()].copy_from_slice(&prologue);
    (page, 0x5000_0000)
}

#[test]
fn address_in_page_keeps_the_offset() {
    assert_eq!(Hook::address_in_page(0x5000_0000, 0xffff_f800_1234_5678), 0x5000_0678);
    assert_eq!(Hook::address_in_page(0x5000_0000, 0x1000), 0x5000_0000);
}

#[test]
fn copy_page_reads_from_the_page_start() {
    let (page, va) = Hook::copy_page(0x1234_5678, |p| {
        assert_eq!(p, 0x1234_5000);
        (vec![1, 2, 3], 0x777)
    })
    .unwrap();
    assert_eq!(page, vec![1, 2, 3]);
    assert_eq!(va, 0x777);
    assert!(Hook::copy_page(0xfff, |_| (vec![], 0)).is_none());
}

#[test]
fn hook_page_shows_the_copy() {
    let hook = Hook::hook_page(0x1234_5678, read_page, |va| va + 0x100_0000).unwrap();
    assert_eq!(hook.original_va, 0x1234_5678);
    assert_eq!(hook.original_pa.as_u64(), 0x1334_5678);
    assert_eq!(hook.page_va, 0x5000_0000);
    assert_eq!(hook.page_pa.as_u64(), 0x5100_0000);
    assert_eq!(hook.hook_va, 0x5000_0000);
    assert!(matches!(hook.hook_type, HookType::Page));
    assert!(Hook::hook_page(0x10, read_page, |va| va).is_none());
}

#[test]
fn hook_function_ptr_places_the_inline_hook_on_the_copy() {
    let (hook, code) = Hook::hook_function_ptr(0x1234_5123, 0xabcd_0000, read_page, |va| va, |n| {
        assert_eq!(n, 15);
        Some(0x6000_0000)
    })
    .unwrap();
    assert_eq!(hook.hook_va, 0x5000_0123);
    match &hook.hook_type {
        HookType::Function { inline_hook } => {
            assert_eq!(inline_hook.address(), 0x5000_0123);
            assert_eq!(inline_hook.handler_address(), 0xabcd_0000);
            assert_eq!(inline_hook.trampoline_address(), 0x6000_0000);
        }
        HookType::Page => panic!("a function hook was expected"),
    }
    assert_eq!(code.len(), 20);
    assert_eq!(code[15], 0xE9);
    // No memory for the trampoline: no hook.
    assert!(Hook::hook_function_ptr(0x1234_5123, 0xabcd_0000, read_page, |va| va, |_| None).is_none());
}

#[test]
fn hooks_are_found_by_page_and_by_address() {
    let hooks = vec![page_hook(0x1000, 0x2_0123), page_hook(0x2000, 0x2_0456), page_hook(0x3000, 0x3_0000)];
    assert_eq!(find_hook(&hooks, 0x2_0fff).unwrap().original_va, 0x1000);
    assert_eq!(find_hook(&hooks, 0x3_0010).unwrap().original_va, 0x3000);
    assert!(find_hook(&hooks, 0x4_0000).is_none());
    assert_eq!(find_hook_by_address(&hooks, 0x2000).unwrap().original_pa.as_u64(), 0x2_0456);
    assert!(find_hook_by_address(&hooks, 0x2001).is_none());
}

#[test]
fn test_hook_handler_gives_back_its_argument() {
    assert_eq!(hook_handler(21), 21);
}

#[test]
fn hook_function_looks_up_the_nul_terminated_name() {
    let expected: Vec<u16> = "MmIsAddressValid".encode_utf16().chain(std::iter::once(0)).collect();
    let (hook, _) = Hook::hook_function(
        "MmIsAddressValid",
        0xabcd_0000,
        |w: &Vec<u16>| {
            assert_eq!(*w, expected);
            0x1234_5123
        },
        read_page,
        |va| va,
        |_| Some(0x6000_0000),
    )
    .unwrap();
    assert_eq!(hook.original_va, 0x1234_5123);
    // Not found.
    assert!(Hook::hook_function("Nothing", 1, |_: &Vec<u16>| 0, read_page, |va| va, |_| Some(0x6000_0000)).is_none());
    // A nul inside the name: nothing is looked up.
    assert!(Hook::hook_function("Mm\0Is", 1, |_: &Vec<u16>| panic!("looked up"), read_page, |va| va, |_| Some(1)).is_none());
    // A nul at the end is accepted.
    let last: Vec<u16> = vec![0x4d, 0x6d, 0];
    assert!(Hook::hook_function("Mm\0", 1, |w: &Vec<u16>| { assert_eq!(*w, last); 0 }, read_page, |va| va, |_| Some(1)).is_none());
    // Characters beyond 0xFFFF become surrogate pairs.
    let pair: Vec<u16> = vec![0x41, 0xD83D, 0xDE00, 0];
    assert!(Hook::hook_function("A\u{1F600}", 1, |w: &Vec<u16>| { assert_eq!(*w, pair); 0 }, read_page, |va| va, |_| Some(1)).is_none());
    // The empty name is the nul alone.
    assert!(Hook::hook_function("", 1, |w: &Vec<u16>| { assert_eq!(*w, vec![0u16]); 0 }, read_page, |va| va, |_| Some(1)).is_none());
}
