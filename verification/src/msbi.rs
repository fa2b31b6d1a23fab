//! M-mode side of the SBI, for booting with `-bios none`: a minimal SBI
//! implementation that answers the kernel's `ecall`s.
//!
//! Each call is decided here and turned into one action; the trap entry
//! performs it (a UART access, a timer compare write, or the QEMU exit) and
//! returns the reply to the caller.

use vstd::prelude::*;
use crate::board::{qemu_exit_handle, EXIT_SUCCESS, VIRT_TEST};
use crate::uart::{Uart, data_ready, UART_LSR, UART_THR};
use crate::sbi::{call, set_timer_call, SBI_CONSOLE_PUTCHAR, SBI_CONSOLE_GETCHAR, SBI_SRST, SBI_SHUTDOWN};
use crate::stdio::console_char;

verus! {

/// UART base address the M-mode console uses.
pub const UART_BASE: usize = 0x1000_0000;

/// Machine timer compare register of the CLINT.
pub const CLINT_MTIMECMP: usize = 0x200_4000;

/// Bit of `mip` that holds the pending machine timer interrupt.
pub const MIP_MTIP: usize = 0x20;

/// SBI extension: base
pub const EID_BASE: usize = 0x10;
/// SBI extension: timer
pub const EID_TIMER: usize = 0x54494D45;
/// SBI extension: legacy console putchar
pub const EID_CONSOLE: usize = 0x01;
/// SBI extension: legacy console getchar
pub const EID_CONSOLE_GETCHAR: usize = 0x02;
/// SBI extension: system reset
pub const EID_SRST: usize = 0x53525354;

/// Base function: get SBI specification version
pub const FID_BASE_GET_SBI_VERSION: usize = 0;
/// Base function: get implementation ID
pub const FID_BASE_GET_IMPL_ID: usize = 1;
/// Base function: get implementation version
pub const FID_BASE_GET_IMPL_VERSION: usize = 2;
/// Base function: probe extension
pub const FID_BASE_PROBE_EXTENSION: usize = 3;
/// Base function: get machine vendor ID
pub const FID_BASE_GET_MVENDORID: usize = 4;
/// Base function: get machine architecture ID
pub const FID_BASE_GET_MARCHID: usize = 5;
/// Base function: get machine implementation ID
pub const FID_BASE_GET_MIMPID: usize = 6;
/// Console function: putchar
pub const FID_CONSOLE_PUTCHAR: usize = 0;
/// Console function: getchar
pub const FID_CONSOLE_GETCHAR: usize = 0;
/// System reset function: shutdown
pub const FID_SRST_SHUTDOWN: usize = 0;

/// The reply of an SBI call.
#[derive(Clone, Copy, Debug, PartialEq, Eq, Structural)]
pub struct SbiRet {
    /// Error code, 0 on success.
    pub error: usize,
    /// Returned value.
    pub value: usize,
}

impl SbiRet {
    /// A successful reply carrying `value`.
    pub fn success(value: usize) -> (r: Self)
        ensures
            r == (SbiRet { error: 0, value }),
    {
        Self { error: 0, value }
    }

    /// The reply to a call that is not supported.
    pub fn not_supported() -> (r: Self)
        ensures
            r == (SbiRet { error: usize::MAX, value: 0 }),
    {
        Self { error: usize::MAX, value: 0 }
    }
}

/// What the M-mode handler does for one call.
#[derive(Clone, Copy, Debug, PartialEq, Eq, Structural)]
pub enum SbiAction {
    /// Return this reply at once.
    Reply(SbiRet),
    /// Write `byte` to the UART transmit register at `addr`, then return
    /// `reply`.
    PutChar { addr: usize, byte: u8, reply: SbiRet },
    /// Read the UART line status at `lsr_addr`, read the byte if
    /// `uart_getchar` says where, and reply `handle_console_getchar` of the
    /// outcome.
    GetChar { lsr_addr: usize },
    /// Make the stores of `write` to the timer compare register, clear the
    /// bits `mip_clear` of `mip` (the pending machine timer interrupt), then
    /// return `reply`.
    SetTimer { write: TimerWrite, mip_clear: usize, reply: SbiRet },
    /// Store `value` (32 bits) at `addr` to exit QEMU; never returns.
    Shutdown { addr: usize, value: u32 },
}

/// The reply to a call of the base extension.
pub open spec fn base_reply(fid: usize) -> SbiRet {
    if fid == FID_BASE_GET_SBI_VERSION {
        SbiRet { error: 0, value: 0x01000000 }
    } else if fid == FID_BASE_GET_IMPL_ID || fid == FID_BASE_GET_IMPL_VERSION
        || fid == FID_BASE_PROBE_EXTENSION {
        SbiRet { error: 0, value: 1 }
    } else if fid == FID_BASE_GET_MVENDORID || fid == FID_BASE_GET_MARCHID || fid
        == FID_BASE_GET_MIMPID {
        SbiRet { error: 0, value: 0 }
    } else {
        SbiRet { error: usize::MAX, value: 0 }
    }
}

/// Base extension: SBI v1.0.0, implementation 1 (rCore-Tutorial-v3)
/// version 1, every extension reported present, vendor, architecture and
/// implementation IDs 0.
pub fn handle_base(fid: usize, _a0: usize, _a1: usize, _a2: usize) -> (r: SbiRet)
    ensures
        r == base_reply(fid),
{
    match fid {
        FID_BASE_GET_SBI_VERSION => SbiRet::success(0x01000000),
        FID_BASE_GET_IMPL_ID => SbiRet::success(1),
        FID_BASE_GET_IMPL_VERSION => SbiRet::success(1),
        FID_BASE_PROBE_EXTENSION => SbiRet::success(1),
        FID_BASE_GET_MVENDORID => SbiRet::success(0),
        FID_BASE_GET_MARCHID => SbiRet::success(0),
        FID_BASE_GET_MIMPID => SbiRet::success(0),
        _ => SbiRet::not_supported(),
    }
}

/// Console putchar: the low byte of `a0` goes to the UART.
pub fn handle_console(fid: usize, a0: usize, _a1: usize, _a2: usize) -> (r: SbiAction)
    ensures
        fid == FID_CONSOLE_PUTCHAR ==> r == (SbiAction::PutChar {
            addr: (UART_BASE + UART_THR) as usize,
            byte: (a0 % 256) as u8,
            reply: SbiRet { error: 0, value: 0 },
        }),
        fid != FID_CONSOLE_PUTCHAR ==> r == SbiAction::Reply(SbiRet { error: usize::MAX, value: 0 }),
{
    match fid {
        FID_CONSOLE_PUTCHAR => {
            let byte: u8 = a0 as u8;
            assert(byte == a0 % 256) by (bit_vector)
                requires
                    byte == a0 as u8,
            ;
            SbiAction::PutChar { addr: UART_BASE + UART_THR, byte, reply: SbiRet::success(0) }
        },
        _ => SbiAction::Reply(SbiRet::not_supported()),
    }
}

/// Where to read a byte from the M-mode UART, given its line status: the
/// receive register when data is ready, `None` otherwise.
pub fn uart_getchar(lsr: u8) -> (r: Option<usize>)
    ensures
        data_ready(lsr) ==> r == Some(UART_BASE),
        !data_ready(lsr) ==> r is None,
{
    Uart::new(UART_BASE).get(lsr)
}

/// The value a console getchar call answers for what the UART gave.
pub open spec fn getchar_value(c: Option<u8>) -> usize {
    match c {
        Some(b) => b as usize,
        None => usize::MAX,
    }
}

/// Console getchar: the byte read, or `usize::MAX` when no character is
/// available; always a success.
pub fn handle_console_getchar(c: Option<u8>) -> (r: SbiRet)
    ensures
        r == (SbiRet { error: 0, value: getchar_value(c) }),
{
    if let Some(c) = c {
        SbiRet::success(c as usize)
    } else {
        SbiRet::success(usize::MAX)  // No character available

    }
}

/// The stores that program the 64-bit timer compare register.
#[derive(Clone, Copy, Debug, PartialEq, Eq, Structural)]
pub enum TimerWrite {
    /// One 64-bit store of `value` at `addr` (64-bit machine).
    Wide { addr: usize, value: u64 },
    /// Two 32-bit stores (32-bit machine): `low` at `addr`, then `high` at
    /// `high_addr`.
    Halves { addr: usize, low: u32, high_addr: usize, high: u32 },
}

/// The stores of a set-timer call: on a 64-bit machine `a0` in one store;
/// on a 32-bit machine `a0` as the low word at the compare register and `a1`
/// as the high word 4 bytes above it.
pub open spec fn timer_write(a0: usize, a1: usize) -> TimerWrite {
    if usize::BITS == 64 {
        TimerWrite::Wide { addr: CLINT_MTIMECMP, value: a0 as u64 }
    } else {
        TimerWrite::Halves {
            addr: CLINT_MTIMECMP,
            low: a0 as u32,
            high_addr: (CLINT_MTIMECMP + 4) as usize,
            high: a1 as u32,
        }
    }
}

/// The 64-bit value that stores write.
pub open spec fn written_value(w: TimerWrite) -> int {
    match w {
        TimerWrite::Wide { value, .. } => value as int,
        TimerWrite::Halves { low, high, .. } => low as int + high as int * 0x1_0000_0000,
    }
}

/// The timer compare value of a set-timer call: `a0` on a 64-bit machine,
/// `a0` as the low and `a1` as the high word on a 32-bit machine.
pub open spec fn timer_value(a0: usize, a1: usize) -> u64 {
    if usize::BITS == 64 {
        a0 as u64
    } else {
        (a0 as int + a1 as int * 0x1_0000_0000) as u64
    }
}

/// Set timer: program the CLINT timer compare register.
pub fn handle_timer(a0: usize, a1: usize) -> (r: SbiAction)
    ensures
        r == (SbiAction::SetTimer {
            write: timer_write(a0, a1),
            mip_clear: MIP_MTIP,
            reply: SbiRet { error: 0, value: 0 },
        }),
        written_value(timer_write(a0, a1)) == timer_value(a0, a1),
{
    if usize::BITS == 64 {
        SbiAction::SetTimer {
            write: TimerWrite::Wide { addr: CLINT_MTIMECMP, value: a0 as u64 },
            mip_clear: MIP_MTIP,
            reply: SbiRet::success(0),
        }
    } else {
        let lo: u64 = a0 as u64;
        let hi: u64 = a1 as u64;
        assert(lo < 0x1_0000_0000 && hi < 0x1_0000_0000);
        let time: u64 = lo | (hi << 32u64);
        let low: u32 = time as u32;
        let high: u32 = (time >> 32u64) as u32;
        assert(time == lo + hi * 0x1_0000_0000 && low == lo && high == hi) by (bit_vector)
            requires
                lo < 0x1_0000_0000,
                hi < 0x1_0000_0000,
                time == lo | (hi << 32u64),
                low == time as u32,
                high == (time >> 32u64) as u32,
        ;
        SbiAction::SetTimer {
            write: TimerWrite::Halves {
                addr: CLINT_MTIMECMP,
                low,
                high_addr: CLINT_MTIMECMP + 4,
                high,
            },
            mip_clear: MIP_MTIP,
            reply: SbiRet::success(0),
        }
    }
}

/// System reset: every function shuts QEMU down successfully.
pub fn handle_srst(_fid: usize, _a0: usize, _a1: usize, _a2: usize) -> (r: SbiAction)
    ensures
        r == (SbiAction::Shutdown { addr: VIRT_TEST, value: EXIT_SUCCESS }),
{
    let (addr, value) = qemu_exit_handle().exit_success_store();
    SbiAction::Shutdown { addr, value }
}

/// What the M-mode handler does for a call with the given registers.
pub open spec fn sbi_dispatch(a0: usize, a1: usize, fid: usize, eid: usize) -> SbiAction {
    if eid == EID_BASE {
        SbiAction::Reply(base_reply(fid))
    } else if eid == EID_CONSOLE {
        if fid == FID_CONSOLE_PUTCHAR {
            SbiAction::PutChar { addr: UART_BASE, byte: (a0 % 256) as u8, reply: SbiRet { error: 0, value: 0 } }
        } else {
            SbiAction::Reply(SbiRet { error: usize::MAX, value: 0 })
        }
    } else if eid == EID_CONSOLE_GETCHAR {
        SbiAction::GetChar { lsr_addr: (UART_BASE + UART_LSR) as usize }
    } else if eid == EID_TIMER {
        SbiAction::SetTimer {
            write: timer_write(a0, a1),
            mip_clear: MIP_MTIP,
            reply: SbiRet { error: 0, value: 0 },
        }
    } else if eid == EID_SRST {
        SbiAction::Shutdown { addr: VIRT_TEST, value: EXIT_SUCCESS }
    } else {
        SbiAction::Reply(SbiRet { error: usize::MAX, value: 0 })
    }
}

/// M-Mode trap handler
/// Arguments passed in registers:
/// a0-a5: SBI call arguments
/// a6: FID (function ID)
/// a7: EID (extension ID)
pub fn m_trap_handler(
    a0: usize,
    a1: usize,
    a2: usize,
    _a3: usize,
    _a4: usize,
    _a5: usize,
    fid: usize,
    eid: usize,
) -> (r: SbiAction)
    ensures
        r == sbi_dispatch(a0, a1, fid, eid),
{
    match eid {
        EID_BASE => SbiAction::Reply(handle_base(fid, a0, a1, a2)),
        EID_CONSOLE => handle_console(fid, a0, a1, a2),
        EID_CONSOLE_GETCHAR => SbiAction::GetChar { lsr_addr: UART_BASE + UART_LSR },
        EID_TIMER => handle_timer(a0, a1),
        EID_SRST => handle_srst(fid, a0, a1, a2),
        _ => SbiAction::Reply(SbiRet::not_supported()),
    }
}


/// A base-extension call is answered from its function id (`a6`) alone,
/// whatever its arguments hold: the SBI version 1.0.0 for function 0, 1 for
/// the implementation id, the implementation version and every extension
/// probe, 0 for the vendor, architecture and implementation ids, and "not
/// supported" for any other function.
pub proof fn lemma_base_calls_answered_by_fid(a0: usize, a1: usize, b0: usize, b1: usize, fid: usize)
    ensures
        sbi_dispatch(a0, a1, fid, EID_BASE) == sbi_dispatch(b0, b1, fid, EID_BASE),
        fid == 0 ==> sbi_dispatch(a0, a1, fid, EID_BASE) == SbiAction::Reply(
            SbiRet { error: 0, value: 0x0100_0000 },
        ),
        1 <= fid <= 3 ==> sbi_dispatch(a0, a1, fid, EID_BASE) == SbiAction::Reply(
            SbiRet { error: 0, value: 1 },
        ),
        4 <= fid <= 6 ==> sbi_dispatch(a0, a1, fid, EID_BASE) == SbiAction::Reply(
            SbiRet { error: 0, value: 0 },
        ),
        fid > 6 ==> sbi_dispatch(a0, a1, fid, EID_BASE) == SbiAction::Reply(
            SbiRet { error: usize::MAX, value: 0 },
        ),
{
}

/// A console putchar call made by the kernel writes the low byte of the
/// character to the UART transmit register.
pub proof fn lemma_putchar_call_is_served(c: usize)
    ensures
        ({
            let k = call(SBI_CONSOLE_PUTCHAR, 0, c, 0, 0);
            sbi_dispatch(k.arg0, k.arg1, k.fid, k.eid) == SbiAction::PutChar {
                addr: UART_BASE,
                byte: (c % 256) as u8,
                reply: SbiRet { error: 0, value: 0 },
            }
        }),
{
}

/// A set-timer call made by the kernel programs the timer compare register
/// with exactly the value the kernel asked for.
pub proof fn lemma_set_timer_call_is_served(next: u64)
    ensures
        ({
            let k = set_timer_call(next);
            &&& sbi_dispatch(k.arg0, k.arg1, k.fid, k.eid) == SbiAction::SetTimer {
                write: timer_write(k.arg0, k.arg1),
                mip_clear: MIP_MTIP,
                reply: SbiRet { error: 0, value: 0 },
            }
            &&& written_value(timer_write(k.arg0, k.arg1)) == next
        }),
{
    if usize::BITS != 64 {
        vstd::arithmetic::div_mod::lemma_fundamental_div_mod(next as int, 0x1_0000_0000);
        vstd::arithmetic::div_mod::lemma_mod_pos_bound(next as int, 0x1_0000_0000);
        vstd::arithmetic::div_mod::lemma_div_is_ordered(next as int, u64::MAX as int, 0x1_0000_0000);
    }
}

/// A console getchar call made by the kernel polls the UART line status.
pub proof fn lemma_getchar_call_is_served()
    ensures
        ({
            let k = call(SBI_CONSOLE_GETCHAR, 0, 0, 0, 0);
            sbi_dispatch(k.arg0, k.arg1, k.fid, k.eid) == SbiAction::GetChar {
                lsr_addr: (UART_BASE + UART_LSR) as usize,
            }
        }),
{
}

/// A byte the M-mode console reads from the UART reaches the kernel's
/// console reader unchanged, except the byte 0, which reads as no
/// character; no byte read as no character either.
pub proof fn lemma_getchar_round_trip(c: Option<u8>)
    ensures
        c matches Some(b) && b != 0 ==> console_char(getchar_value(c)) == c,
        c == Some(0u8) ==> console_char(getchar_value(c)) is None,
        c is None ==> console_char(getchar_value(c)) is None,
{
}

/// The kernel's shutdown reaches the QEMU exit with success through its
/// first (SRST) call, whatever the reason; the legacy call that follows it
/// is not supported by the M-mode handler.
pub proof fn lemma_shutdown_call_is_served(failure: bool)
    ensures
        ({
            let k = call(SBI_SRST, 0, 0, if failure { 1 } else { 0 }, 0);
            sbi_dispatch(k.arg0, k.arg1, k.fid, k.eid) == SbiAction::Shutdown {
                addr: VIRT_TEST,
                value: EXIT_SUCCESS,
            }
        }),
        ({
            let k = call(SBI_SHUTDOWN, 0, 0, 0, 0);
            sbi_dispatch(k.arg0, k.arg1, k.fid, k.eid) == SbiAction::Reply(
                SbiRet { error: usize::MAX, value: 0 },
            )
        }),
{
}

} // verus!
