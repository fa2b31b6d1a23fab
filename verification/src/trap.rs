//! Trap context of a user application and the dispatch of traps taken from
//! user space: system calls, faults, and timer interrupts.

use vstd::prelude::*;

verus! {

/// Exception code: environment call from user mode
pub const EXCEPTION_USER_ECALL: usize = 8;
/// Exception code: store access fault
pub const EXCEPTION_STORE_FAULT: usize = 7;
/// Exception code: store page fault
pub const EXCEPTION_STORE_PAGE_FAULT: usize = 15;
/// Exception code: illegal instruction
pub const EXCEPTION_ILLEGAL_INSTRUCTION: usize = 2;
/// Interrupt code: supervisor timer
pub const INTERRUPT_SUPERVISOR_TIMER: usize = 5;

/// Bit of `sstatus` that holds the previous privilege (SPP): clear for user
/// mode.
pub const SSTATUS_SPP_BIT: usize = 8;

/// trap context structure containing sstatus, sepc and registers
pub struct TrapContext {
    /// general regs[0..31]
    pub x: [usize; 32],
    /// CSR sstatus, as its raw bits
    pub sstatus: usize,
    /// CSR sepc
    pub sepc: usize,
    /// Addr of Page Table
    pub kernel_satp: usize,
    /// kernel stack
    pub kernel_sp: usize,
    /// Addr of trap_handler function
    pub trap_handler: usize,
}

/// `sstatus` bits with SPP cleared: returning from the trap enters user mode.
pub open spec fn user_sstatus(bits: usize) -> usize {
    if (bits / 256) % 2 == 1 {
        (bits - 256) as usize
    } else {
        bits
    }
}

impl TrapContext {
    /// set stack pointer to x_2 reg (sp)
    pub fn set_sp(&mut self, sp: usize)
        ensures
            final(self).x@ == old(self).x@.update(2, sp),
            final(self).sstatus == old(self).sstatus,
            final(self).sepc == old(self).sepc,
            final(self).kernel_satp == old(self).kernel_satp,
            final(self).kernel_sp == old(self).kernel_sp,
            final(self).trap_handler == old(self).trap_handler,
    {
        self.x[2] = sp;
    }

    /// init app context: user mode (SPP cleared in the current `sstatus`
    /// bits), all registers 0 but `sp`, and `sepc` at the entry point.
    pub fn app_init_context(
        entry: usize,
        sp: usize,
        kernel_satp: usize,
        kernel_sp: usize,
        trap_handler: usize,
        sstatus: usize,
    ) -> (cx: Self)
        ensures
            cx.x@ == Seq::new(32, |i: int| 0usize).update(2, sp),
            cx.sstatus == user_sstatus(sstatus),
            cx.sepc == entry,
            cx.kernel_satp == kernel_satp,
            cx.kernel_sp == kernel_sp,
            cx.trap_handler == trap_handler,
    {
        let bits: usize = sstatus & !(1usize << SSTATUS_SPP_BIT);
        assert(bits == user_sstatus(sstatus)) by (bit_vector)
            requires
                bits == sstatus & !(1usize << 8usize),
        ;
        let mut cx = Self {
            x: [0usize; 32],
            sstatus: bits,
            sepc: entry,
            kernel_satp,
            kernel_sp,
            trap_handler,
        };
        proof {
            assert(cx.x@ =~= Seq::new(32, |i: int| 0usize));
        }
        cx.set_sp(sp);
        cx
    }
}


/// The cause of a trap, as read from `scause`.
#[derive(Clone, Copy, Debug, PartialEq, Eq, Structural)]
pub enum TrapCause {
    /// An interrupt with its code.
    Interrupt(usize),
    /// An exception with its code.
    Exception(usize),
}

/// What to do after a trap from user space.
#[derive(Clone, Copy, Debug, PartialEq, Eq, Structural)]
pub enum TrapAction {
    /// Run system call `id` with the arguments `a0`..`a2`, then store its result with
    /// `TrapContext::set_syscall_result`.
    Syscall { id: usize, a0: usize, a1: usize, a2: usize },
    /// Report a page fault at `addr` by the instruction at `sepc`, and kill
    /// the application.
    KillPageFault { addr: usize, sepc: usize },
    /// Report an illegal instruction and kill the application.
    KillIllegalInstruction,
    /// Set the next timer trigger and switch to the next task.
    Preempt,
    /// A trap the kernel does not handle: panic, reporting the cause and `stval`.
    Unsupported { cause: TrapCause, stval: usize },
}

/// The action for a trap with `cause` and `stval` from the context `cx` as
/// it was when the trap was taken.
pub open spec fn trap_action(cx: TrapContext, cause: TrapCause, stval: usize) -> TrapAction {
    match cause {
        TrapCause::Exception(code) => {
            if code == EXCEPTION_USER_ECALL {
                TrapAction::Syscall { id: cx.x[17], a0: cx.x[10], a1: cx.x[11], a2: cx.x[12] }
            } else if code == EXCEPTION_STORE_FAULT || code == EXCEPTION_STORE_PAGE_FAULT {
                TrapAction::KillPageFault { addr: stval, sepc: cx.sepc }
            } else if code == EXCEPTION_ILLEGAL_INSTRUCTION {
                TrapAction::KillIllegalInstruction
            } else {
                TrapAction::Unsupported { cause, stval }
            }
        },
        TrapCause::Interrupt(code) => {
            if code == INTERRUPT_SUPERVISOR_TIMER {
                TrapAction::Preempt
            } else {
                TrapAction::Unsupported { cause, stval }
            }
        },
    }
}

/// Each trap cause has its own handling: only the supervisor timer
/// interrupt (5) preempts; only the user `ecall` exception (8) is a system
/// call, with the id from `a7` and the arguments from `a0`..`a2`; store
/// access faults (7) and store page faults (15) kill the application,
/// reporting the faulting address and instruction; illegal instructions (2)
/// kill it too; every other cause is not handled and is reported with its
/// `stval`.
pub proof fn lemma_trap_action_by_cause(cx: TrapContext, cause: TrapCause, stval: usize)
    ensures
        (trap_action(cx, cause, stval) is Preempt) <==> (cause == TrapCause::Interrupt(5)),
        (trap_action(cx, cause, stval) is Syscall) <==> (cause == TrapCause::Exception(8)),
        (trap_action(cx, cause, stval) is KillPageFault) <==> (cause == TrapCause::Exception(7)
            || cause == TrapCause::Exception(15)),
        (trap_action(cx, cause, stval) is KillIllegalInstruction) <==> (cause
            == TrapCause::Exception(2)),
        cause == TrapCause::Exception(8) ==> trap_action(cx, cause, stval) == (TrapAction::Syscall {
            id: cx.x[17],
            a0: cx.x[10],
            a1: cx.x[11],
            a2: cx.x[12],
        }),
        cause == TrapCause::Exception(7) || cause == TrapCause::Exception(15) ==> trap_action(
            cx,
            cause,
            stval,
        ) == (TrapAction::KillPageFault { addr: stval, sepc: cx.sepc }),
        cause != TrapCause::Interrupt(5) && cause != TrapCause::Exception(8) && cause
            != TrapCause::Exception(7) && cause != TrapCause::Exception(15) && cause
            != TrapCause::Exception(2) ==> trap_action(cx, cause, stval) == (TrapAction::Unsupported {
            cause,
            stval,
        }),
{
}

/// Whether a trap is a system call from user mode.
pub open spec fn is_user_ecall(cause: TrapCause) -> bool {
    cause == TrapCause::Exception(EXCEPTION_USER_ECALL)
}

impl TrapContext {
    /// Store the result of a system call in `a0` (x10), as a word.
    pub fn set_syscall_result(&mut self, ret: isize)
        ensures
            final(self).x@ == old(self).x@.update(10, ret as usize),
            final(self).sstatus == old(self).sstatus,
            final(self).sepc == old(self).sepc,
            final(self).kernel_satp == old(self).kernel_satp,
            final(self).kernel_sp == old(self).kernel_sp,
            final(self).trap_handler == old(self).trap_handler,
    {
        self.x[10] = ret as usize;
    }
}

/// handle an interrupt, exception, or system call from user space: a
/// system call returns past the `ecall` instruction (`sepc` advances by 4)
/// and is run with the id in `a7` (x17) and the arguments in `a0`..`a2`;
/// store faults and page faults and illegal instructions kill the
/// application; the timer interrupt preempts it; anything else is not
/// handled.
pub fn trap_handler(cx: &mut TrapContext, cause: TrapCause, stval: usize) -> (r: TrapAction)
    requires
        is_user_ecall(cause) ==> old(cx).sepc + 4 <= usize::MAX,
    ensures
        r == trap_action(*old(cx), cause, stval),
        is_user_ecall(cause) ==> final(cx).sepc == old(cx).sepc + 4,
        !is_user_ecall(cause) ==> final(cx).sepc == old(cx).sepc,
        final(cx).x@ == old(cx).x@,
        final(cx).sstatus == old(cx).sstatus,
        final(cx).kernel_satp == old(cx).kernel_satp,
        final(cx).kernel_sp == old(cx).kernel_sp,
        final(cx).trap_handler == old(cx).trap_handler,
{
    match cause {
        TrapCause::Exception(code) => {
            if code == EXCEPTION_USER_ECALL {
                cx.sepc = cx.sepc + 4;
                TrapAction::Syscall { id: cx.x[17], a0: cx.x[10], a1: cx.x[11], a2: cx.x[12] }
            } else if code == EXCEPTION_STORE_FAULT || code == EXCEPTION_STORE_PAGE_FAULT {
                TrapAction::KillPageFault { addr: stval, sepc: cx.sepc }
            } else if code == EXCEPTION_ILLEGAL_INSTRUCTION {
                TrapAction::KillIllegalInstruction
            } else {
                TrapAction::Unsupported { cause, stval }
            }
        },
        TrapCause::Interrupt(code) => {
            if code == INTERRUPT_SUPERVISOR_TIMER {
                TrapAction::Preempt
            } else {
                TrapAction::Unsupported { cause, stval }
            }
        },
    }
}

} // verus!
