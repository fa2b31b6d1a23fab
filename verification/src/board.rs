//! Constants of the QEMU `virt` board and the encoding of the values that
//! make QEMU exit through its test device.

use vstd::prelude::*;

verus! {

/// Clock frequency
pub const CLOCK_FREQ: usize = 12500000;

/// Memory end address
pub const MEMORY_END: usize = 0x81000000;

/// QEMU exit code value meaning success, written as is.
pub const EXIT_SUCCESS: u32 = 0x5555;

/// Low half-word that marks an encoded failure code.
pub const EXIT_FAILURE_FLAG: u32 = 0x3333;

/// QEMU exit value for failure with code 1.
pub const EXIT_FAILURE: u32 = 0x1_3333;

/// QEMU reset value, written as is.
pub const EXIT_RESET: u32 = 0x7777;

/// Address of the QEMU test device (VIRT_TEST/RTC in the virt machine).
pub const VIRT_TEST: usize = 0x100000;

/// Size of the MMIO region of the QEMU test device.
pub const VIRT_TEST_SIZE: usize = 0x2000;

/// The value that encodes a failure exit with `code`: the code in the high
/// half-word (taken modulo 2^16) and `EXIT_FAILURE_FLAG` in the low half-word.
pub open spec fn exit_code_encode_spec(code: u32) -> u32 {
    ((code as int % 0x10000) * 0x10000 + EXIT_FAILURE_FLAG) as u32
}

/// Encode the exit code using EXIT_FAILURE_FLAG.
pub fn exit_code_encode(code: u32) -> (r: u32)
    ensures
        r == exit_code_encode_spec(code),
{
    let r: u32 = (code << 16u32) | EXIT_FAILURE_FLAG;
    assert(r as int == (code as int % 0x10000) * 0x10000 + 0x3333) by (bit_vector)
        requires
            r == (code << 16u32) | 0x3333u32,
    ;
    r
}

/// The value written to the test device to exit with `code`: the three
/// special values are written as they are, any other code is encoded.
pub open spec fn exit_value(code: u32) -> u32 {
    if code == EXIT_SUCCESS || code == EXIT_FAILURE || code == EXIT_RESET {
        code
    } else {
        exit_code_encode_spec(code)
    }
}

/// RISC-V configuration (works for both RV32 and RV64)
pub struct RISCV {
    /// Address of the sifive_test mapped device.
    addr: usize,
}

impl View for RISCV {
    /// The address of the test device.
    type V = usize;

    closed spec fn view(&self) -> usize {
        self.addr
    }
}

impl RISCV {
    /// Create an instance.
    pub fn new(addr: usize) -> (r: Self)
        ensures
            r@ == addr,
    {
        RISCV { addr }
    }

    /// The 32-bit store that exits QEMU with `code`: the device address and
    /// the value written there.
    pub fn exit_store(&self, code: u32) -> (r: (usize, u32))
        ensures
            r == (self@, exit_value(code)),
    {
        let code_new = if code == EXIT_SUCCESS || code == EXIT_FAILURE || code == EXIT_RESET {
            code
        } else {
            exit_code_encode(code)
        };
        (self.addr, code_new)
    }

    /// The store that exits QEMU with `EXIT_SUCCESS`.
    pub fn exit_success_store(&self) -> (r: (usize, u32))
        ensures
            r == (self@, EXIT_SUCCESS),
    {
        self.exit_store(EXIT_SUCCESS)
    }

    /// The store that exits QEMU with `EXIT_FAILURE`.
    pub fn exit_failure_store(&self) -> (r: (usize, u32))
        ensures
            r == (self@, EXIT_FAILURE),
    {
        self.exit_store(EXIT_FAILURE)
    }
}

/// QEMU exit handle: the test device of the virt machine.
pub fn qemu_exit_handle() -> (r: RISCV)
    ensures
        r@ == VIRT_TEST,
{
    RISCV::new(VIRT_TEST)
}

/// `EXIT_FAILURE` is the encoding of code 1, so exiting with code 1 and
/// exiting with failure write the same value.
pub proof fn lemma_exit_failure_is_exit_one()
    ensures
        exit_code_encode_spec(1) == EXIT_FAILURE,
        exit_value(1) == EXIT_FAILURE,
{
}

/// An encoded failure value keeps the code (modulo 2^16) in its high
/// half-word and the failure flag in its low half-word, and is never one of
/// the values QEMU reads as success or reset.
pub proof fn lemma_exit_code_encode_decodes(code: u32)
    ensures
        exit_code_encode_spec(code) as int / 0x10000 == code as int % 0x10000,
        exit_code_encode_spec(code) as int % 0x10000 == EXIT_FAILURE_FLAG,
        exit_code_encode_spec(code) != EXIT_SUCCESS,
        exit_code_encode_spec(code) != EXIT_RESET,
{
}

} // verus!
