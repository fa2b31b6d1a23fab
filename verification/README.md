# rcore_os

The decision logic of a small RISC-V teaching kernel (rCore style), written
in Verus and verified: address and page-number arithmetic (SV39 on 64-bit
machines, SV32 on 32-bit ones), the SBI protocol on the kernel side and on
the M-mode firmware side, the 16550 UART register protocol, console and log
output, time conversions and the queue of sleeping tasks, trap dispatch, and
a round-robin coroutine runtime.

- `src/` is the verified library. Its functions return what the hardware is
  to be asked (which register to read or write, which SBI call to make,
  which contexts to switch) instead of touching it.
- `app/` performs those accesses: MMIO, `ecall`, CSRs, the context switch,
  and the `log` crate's logger.
- `tests/` runs the library on concrete values.
