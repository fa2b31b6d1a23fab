//! Verified core of a small RISC-V teaching kernel: address arithmetic,
//! both sides of the SBI protocol, the UART register protocol, console and
//! log output, timers, trap dispatch, and a coroutine runtime.
//!
//! The functions here decide; the hardware accesses they call for (MMIO
//! loads and stores, CSR accesses, `ecall`, context switches) are made by
//! their caller with the values they return.

pub mod config;
pub mod board;
pub mod address;
pub mod range;
pub mod uart;
pub mod sbi;
pub mod msbi;
pub mod stdio;
pub mod trap;
pub mod timer;
pub mod coroutine;
pub mod console;
pub mod logging;
