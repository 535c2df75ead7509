use amd_hypervisor::svm::data::guest::GuestRegisters;

#[test]
fn test_struct_sizes() {}

#[test]
fn guest_registers_are_sixteen_words() {
    assert_eq!(std::mem::size_of::<GuestRegisters>(), 128);
}
