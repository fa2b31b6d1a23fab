use rcore_os::trap::{trap_handler, TrapAction, TrapCause, TrapContext};

fn context() -> TrapContext {
    let mut cx = TrapContext::app_init_context(0x1_0000, 0x8000, 0x11, 0x22, 0x33, 0x122);
    cx.x[17] = 64;
    cx.x[10] = 1;
    cx.x[11] = 0x5000;
    cx.x[12] = 5;
    cx
}

#[test]
fn app_init_context_enters_user_mode() {
    let cx = TrapContext::app_init_context(0x1_0000, 0x8000, 0x11, 0x22, 0x33, 0x122);
    assert_eq!(cx.sstatus, 0x22);
    assert_eq!(cx.sepc, 0x1_0000);
    assert_eq!(cx.x[2], 0x8000);
    assert_eq!(cx.x.iter().filter(|r| **r != 0).count(), 1);
    assert_eq!((cx.kernel_satp, cx.kernel_sp, cx.trap_handler), (0x11, 0x22, 0x33));
    let kept = TrapContext::app_init_context(0, 0, 0, 0, 0, 0x22);
    assert_eq!(kept.sstatus, 0x22);
}

#[test]
fn set_sp_sets_x2() {
    let mut cx = context();
    cx.set_sp(0x9000);
    assert_eq!(cx.x[2], 0x9000);
}

#[test]
fn ecall_advances_sepc_and_asks_syscall() {
    let mut cx = context();
    let action = trap_handler(&mut cx, TrapCause::Exception(8), 0);
    assert_eq!(action, TrapAction::Syscall { id: 64, a0: 1, a1: 0x5000, a2: 5 });
    assert_eq!(cx.sepc, 0x1_0004);
    cx.set_syscall_result(-1);
    assert_eq!(cx.x[10], usize::MAX);
    cx.set_syscall_result(5);
    assert_eq!(cx.x[10], 5);
}

#[test]
fn faults_kill_the_application() {
    let mut cx = context();
    assert_eq!(trap_handler(&mut cx, TrapCause::Exception(7), 0xdead), TrapAction::KillPageFault { addr: 0xdead, sepc: 0x1_0000 });
    assert_eq!(trap_handler(&mut cx, TrapCause::Exception(15), 0xbeef), TrapAction::KillPageFault { addr: 0xbeef, sepc: 0x1_0000 });
    assert_eq!(trap_handler(&mut cx, TrapCause::Exception(2), 0), TrapAction::KillIllegalInstruction);
    assert_eq!(cx.sepc, 0x1_0000);
}

#[test]
fn timer_preempts_and_others_are_unsupported() {
    let mut cx = context();
    assert_eq!(trap_handler(&mut cx, TrapCause::Interrupt(5), 0), TrapAction::Preempt);
    assert_eq!(
        trap_handler(&mut cx, TrapCause::Interrupt(9), 3),
        TrapAction::Unsupported { cause: TrapCause::Interrupt(9), stval: 3 }
    );
    assert_eq!(
        trap_handler(&mut cx, TrapCause::Exception(13), 4),
        TrapAction::Unsupported { cause: TrapCause::Exception(13), stval: 4 }
    );
    assert_eq!(cx.sepc, 0x1_0000);
}
