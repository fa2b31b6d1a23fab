//! Register protocol of the 16550-compatible UART, which lets the S-mode
//! kernel drive the UART hardware without going through SBI calls.
//!
//! The driver itself owns no memory: each operation says which register to
//! read or write, and how to go on from the value that was read.

use vstd::prelude::*;
use vstd::string::StringSliceAdditionalSpecFns;

verus! {

/// UART base address on QEMU virt machine
pub const UART_BASE: usize = 0x1000_0000;

/// Receive Holding Register (read)
pub const UART_RHR: usize = 0;
/// Transmit Holding Register (write)
pub const UART_THR: usize = 0;
/// Interrupt Enable Register
pub const UART_IER: usize = 1;
/// FIFO Control Register (write)
pub const UART_FCR: usize = 2;
/// Interrupt Status Register (read)
pub const UART_ISR: usize = 2;
/// Line Control Register
pub const UART_LCR: usize = 3;
/// Modem Control Register
pub const UART_MCR: usize = 4;
/// Line Status Register
pub const UART_LSR: usize = 5;
/// Modem Status Register
pub const UART_MSR: usize = 6;
/// Scratch Pad Register
pub const UART_SPR: usize = 7;

/// Line Status Register bit: data ready
pub const LSR_DATA_READY: u8 = 1;
/// Line Status Register bit: transmit-hold-register empty
pub const LSR_THR_EMPTY: u8 = 0x20;

/// Whether a line status value says that a received byte is waiting.
pub open spec fn data_ready(lsr: u8) -> bool {
    lsr % 2 == 1
}

/// Whether a line status value says that the transmitter can take a byte.
pub open spec fn thr_empty(lsr: u8) -> bool {
    (lsr / 32) % 2 == 1
}

/// UART driver structure
pub struct Uart {
    base_addr: usize,
}

impl View for Uart {
    /// The base address of the UART registers.
    type V = usize;

    closed spec fn view(&self) -> usize {
        self.base_addr
    }
}

/// The register writes that initialise a UART at `base`, in order.
pub open spec fn init_writes(base: usize) -> Seq<(usize, u8)> {
    seq![
        ((base + UART_IER) as usize, 0x00u8),
        ((base + UART_LCR) as usize, 0x80u8),
        ((base + UART_RHR) as usize, 0x03u8),
        ((base + UART_IER) as usize, 0x00u8),
        ((base + UART_LCR) as usize, 0x03u8),
        ((base + UART_FCR) as usize, 0xC7u8),
        ((base + UART_MCR) as usize, 0x0Bu8),
        ((base + UART_IER) as usize, 0x00u8),
    ]
}

impl Uart {
    /// Create a new UART instance
    pub fn new(base_addr: usize) -> (u: Self)
        ensures
            u@ == base_addr,
    {
        Self { base_addr }
    }

    /// Address of the register at `offset`.
    pub fn reg_addr(&self, offset: usize) -> (a: usize)
        requires
            self@ + offset <= usize::MAX,
        ensures
            a == self@ + offset,
    {
        self.base_addr + offset
    }

    /// Initialize the UART: the register writes to perform, in order.
    /// They disable interrupts, set the baud-rate divisor to 3 (38.4K baud)
    /// through the divisor latch, select 8 data bits, no parity and one stop
    /// bit, enable and clear the FIFOs with a 14-byte threshold, set RTS, DTR
    /// and OUT2, and leave interrupts disabled (polling mode).
    pub fn init(&self) -> (w: Vec<(usize, u8)>)
        requires
            self@ + UART_MCR <= usize::MAX,
        ensures
            w@ == init_writes(self@),
    {
        let mut w: Vec<(usize, u8)> = Vec::new();
        // Disable all interrupts
        w.push((self.reg_addr(UART_IER), 0x00));
        // Enable DLAB (Divisor Latch Access Bit) to set baud rate
        w.push((self.reg_addr(UART_LCR), 0x80));
        // Set baud rate divisor to 3 (38.4K baud for QEMU)
        w.push((self.reg_addr(UART_RHR), 0x03));
        w.push((self.reg_addr(UART_IER), 0x00));
        // Disable DLAB and set word length to 8 bits, no parity, 1 stop bit
        w.push((self.reg_addr(UART_LCR), 0x03));
        // Enable FIFO, clear TX/RX queues with 14-byte threshold
        w.push((self.reg_addr(UART_FCR), 0xC7));
        // Enable auxiliary output 2, RTS and DTR
        w.push((self.reg_addr(UART_MCR), 0x0B));
        // Leave receive interrupts disabled: polling mode
        w.push((self.reg_addr(UART_IER), 0x00));
        proof {
            assert(w@ =~= init_writes(self@));
        }
        w
    }

    /// Address of the line status register, which `put` and `get` poll.
    pub fn lsr_addr(&self) -> (a: usize)
        requires
            self@ + UART_LSR <= usize::MAX,
        ensures
            a == self@ + UART_LSR,
    {
        self.reg_addr(UART_LSR)
    }

    /// One poll of writing `byte`, given the line status just read: once the
    /// transmit-hold register is empty, the write of `byte` to it; before
    /// that, `None` (poll the line status again).
    pub fn put(&self, lsr: u8, byte: u8) -> (w: Option<(usize, u8)>)
        requires
            self@ + UART_LSR <= usize::MAX,
        ensures
            thr_empty(lsr) ==> w == Some(((self@ + UART_THR) as usize, byte)),
            !thr_empty(lsr) ==> w is None,
    {
        assert(lsr & 0x20u8 == 0 <==> (lsr / 32) % 2 != 1) by (bit_vector);
        if lsr & LSR_THR_EMPTY == 0 {
            None
        } else {
            Some((self.reg_addr(UART_THR), byte))
        }
    }

    /// The bytes that writing a string puts, one `put` each, in order: its
    /// UTF-8 encoding.
    pub fn puts(&self, s: &str) -> (bytes: Vec<u8>)
        ensures
            bytes@ == s.spec_bytes(),
    {
        let b = s.as_bytes();
        let mut out: Vec<u8> = Vec::new();
        let mut i: usize = 0;
        while i < b.len()
            invariant
                0 <= i <= b@.len(),
                b@ == s.spec_bytes(),
                out@ == b@.take(i as int),
            decreases b@.len() - i,
        {
            out.push(b[i]);
            i = i + 1;
            proof {
                assert(out@ =~= b@.take(i as int));
            }
        }
        proof {
            assert(out@ =~= b@);
        }
        out
    }

    /// Try to read a byte from UART (non-blocking), given the line status
    /// just read: the address of the receive register to read the byte from
    /// when data is ready, `None` otherwise.
    pub fn get(&self, lsr: u8) -> (r: Option<usize>)
        requires
            self@ + UART_LSR <= usize::MAX,
        ensures
            data_ready(lsr) ==> r == Some((self@ + UART_RHR) as usize),
            !data_ready(lsr) ==> r is None,
    {
        assert(lsr & 1u8 != 0 <==> lsr % 2 == 1) by (bit_vector);
        if lsr & LSR_DATA_READY != 0 {
            Some(self.reg_addr(UART_RHR))
        } else {
            None
        }
    }
}

} // verus!
