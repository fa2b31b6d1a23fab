use rcore_os::board::{exit_code_encode, qemu_exit_handle, RISCV, EXIT_FAILURE, EXIT_RESET, EXIT_SUCCESS, VIRT_TEST};

#[test]
fn encode_puts_code_in_high_half() {
    assert_eq!(exit_code_encode(1), 0x1_3333);
    assert_eq!(exit_code_encode(0), 0x3333);
    assert_eq!(exit_code_encode(0xabcd), 0xabcd_3333);
    assert_eq!(exit_code_encode(0x1_0002), 0x2_3333);
}

#[test]
fn exit_store_keeps_special_values() {
    let dev = RISCV::new(0x100000);
    assert_eq!(dev.exit_store(EXIT_SUCCESS), (0x100000, 0x5555));
    assert_eq!(dev.exit_store(EXIT_FAILURE), (0x100000, 0x1_3333));
    assert_eq!(dev.exit_store(EXIT_RESET), (0x100000, 0x7777));
    assert_eq!(dev.exit_store(2), (0x100000, 0x2_3333));
    assert_eq!(dev.exit_store(0), (0x100000, 0x3333));
}

#[test]
fn exit_failure_equals_exit_one() {
    let dev = qemu_exit_handle();
    assert_eq!(dev.exit_failure_store(), dev.exit_store(1));
    assert_eq!(dev.exit_success_store(), (VIRT_TEST, EXIT_SUCCESS));
}
