//! S-mode side of the SBI: the calls the kernel makes to the firmware.
//!
//! A call is made with the `ecall` instruction, the extension in `a7`, the
//! function in `a6` and the arguments in `a0`..`a2`; this module says which
//! calls the kernel makes and with what register values.

use vstd::prelude::*;

verus! {

/// SBI extension: legacy console putchar
pub const SBI_CONSOLE_PUTCHAR: usize = 0x01;
/// SBI extension: legacy console getchar
pub const SBI_CONSOLE_GETCHAR: usize = 0x02;
/// SBI extension: legacy shutdown
pub const SBI_SHUTDOWN: usize = 0x08;
/// SBI extension: timer
pub const SBI_SET_TIMER: usize = 0x54494D45;
/// SBI extension: system reset (SRST)
pub const SBI_SRST: usize = 0x53525354;

/// The registers of one SBI call.
#[derive(Clone, Copy, Debug, PartialEq, Eq, Structural)]
pub struct SbiCall {
    /// Extension ID, passed in `a7`.
    pub eid: usize,
    /// Function ID, passed in `a6`.
    pub fid: usize,
    /// First argument, passed in `a0`.
    pub arg0: usize,
    /// Second argument, passed in `a1`.
    pub arg1: usize,
    /// Third argument, passed in `a2`.
    pub arg2: usize,
}

/// The SBI call with the given registers.
pub open spec fn call(eid: usize, fid: usize, arg0: usize, arg1: usize, arg2: usize) -> SbiCall {
    SbiCall { eid, fid, arg0, arg1, arg2 }
}

/// use sbi call to putchar in console (qemu uart handler)
pub fn console_putchar(c: usize) -> (r: SbiCall)
    ensures
        r == call(SBI_CONSOLE_PUTCHAR, 0, c, 0, 0),
{
    SbiCall { eid: SBI_CONSOLE_PUTCHAR, fid: 0, arg0: c, arg1: 0, arg2: 0 }
}

/// use sbi call to getchar from console (qemu uart handler); the character
/// is the `value` the call returns.
pub fn console_getchar() -> (r: SbiCall)
    ensures
        r == call(SBI_CONSOLE_GETCHAR, 0, 0, 0, 0),
{
    SbiCall { eid: SBI_CONSOLE_GETCHAR, fid: 0, arg0: 0, arg1: 0, arg2: 0 }
}

/// The set-timer call for the compare value `next`: the whole value in
/// `a0` on a 64-bit machine; its low word in `a0` and its high word in `a1`
/// on a 32-bit machine.
pub open spec fn set_timer_call(next: u64) -> SbiCall {
    if usize::BITS == 64 {
        call(SBI_SET_TIMER, 0, next as usize, 0, 0)
    } else {
        call(
            SBI_SET_TIMER,
            0,
            (next as int % 0x1_0000_0000) as usize,
            (next as int / 0x1_0000_0000) as usize,
            0,
        )
    }
}

/// use sbi call to set the next timer interrupt at `next`
pub fn set_timer(next: u64) -> (r: SbiCall)
    ensures
        r == set_timer_call(next),
{
    if usize::BITS == 64 {
        SbiCall { eid: SBI_SET_TIMER, fid: 0, arg0: next as usize, arg1: 0, arg2: 0 }
    } else {
        let lo: u64 = next & 0xffff_ffffu64;
        let hi: u64 = next >> 32u64;
        assert(lo == next % 0x1_0000_0000 && hi == next / 0x1_0000_0000) by (bit_vector)
            requires
                lo == next & 0xffff_ffffu64,
                hi == next >> 32u64,
        ;
        SbiCall { eid: SBI_SET_TIMER, fid: 0, arg0: lo as usize, arg1: hi as usize, arg2: 0 }
    }
}

/// What a console getchar call answers: the value register (`a1`) of the
/// reply (error, value); the error register is not looked at.
pub fn reply_value(reply: (isize, usize)) -> (v: usize)
    ensures
        v == reply.1,
{
    reply.1
}

/// use sbi call to shutdown the kernel: the calls made in order, first the
/// SRST extension (SBI v0.3+) with the reason (1 for a failure, 0 otherwise),
/// then the legacy shutdown. Neither is expected to return.
pub fn shutdown(failure: bool) -> (r: Vec<SbiCall>)
    ensures
        r@ == seq![
            call(SBI_SRST, 0, 0, if failure { 1 } else { 0 }, 0),
            call(SBI_SHUTDOWN, 0, 0, 0, 0),
        ],
{
    let reason: usize = if failure { 1 } else { 0 };
    let mut calls: Vec<SbiCall> = Vec::new();
    calls.push(SbiCall { eid: SBI_SRST, fid: 0, arg0: 0, arg1: reason, arg2: 0 });
    calls.push(SbiCall { eid: SBI_SHUTDOWN, fid: 0, arg0: 0, arg1: 0, arg2: 0 });
    proof {
        assert(calls@ =~= seq![
            call(SBI_SRST, 0, 0, if failure { 1 } else { 0 }, 0),
            call(SBI_SHUTDOWN, 0, 0, 0, 0),
        ]);
    }
    calls
}

} // verus!
