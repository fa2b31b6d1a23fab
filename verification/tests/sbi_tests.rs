use rcore_os::msbi::{
    handle_base, handle_console, handle_console_getchar, handle_srst, handle_timer, m_trap_handler,
    uart_getchar, SbiAction, SbiRet, TimerWrite, CLINT_MTIMECMP, UART_BASE,
};
use rcore_os::sbi::{console_getchar, console_putchar, reply_value, set_timer, shutdown, SbiCall};
use rcore_os::stdio;

fn serve(k: SbiCall) -> SbiAction {
    m_trap_handler(k.arg0, k.arg1, k.arg2, 0, 0, 0, k.fid, k.eid)
}

#[test]
fn sbi_ret_constructors() {
    assert_eq!(SbiRet::success(7), SbiRet { error: 0, value: 7 });
    assert_eq!(SbiRet::not_supported(), SbiRet { error: usize::MAX, value: 0 });
}

#[test]
fn base_extension_table() {
    assert_eq!(handle_base(0, 0, 0, 0), SbiRet::success(0x0100_0000));
    assert_eq!(handle_base(1, 0, 0, 0), SbiRet::success(1));
    assert_eq!(handle_base(2, 0, 0, 0), SbiRet::success(1));
    assert_eq!(handle_base(3, 0, 0, 0), SbiRet::success(1));
    assert_eq!(handle_base(4, 0, 0, 0), SbiRet::success(0));
    assert_eq!(handle_base(5, 0, 0, 0), SbiRet::success(0));
    assert_eq!(handle_base(6, 0, 0, 0), SbiRet::success(0));
    assert_eq!(handle_base(7, 0, 0, 0), SbiRet::not_supported());
}

#[test]
fn console_handlers() {
    assert_eq!(handle_console(0, 0x141, 0, 0), SbiAction::PutChar { addr: UART_BASE, byte: 0x41, reply: SbiRet::success(0) });
    assert_eq!(handle_console(1, 0x41, 0, 0), SbiAction::Reply(SbiRet::not_supported()));
    assert_eq!(handle_console_getchar(Some(b'x')), SbiRet::success(b'x' as usize));
    assert_eq!(handle_console_getchar(None), SbiRet::success(usize::MAX));
    assert_eq!(uart_getchar(0x01), Some(UART_BASE));
    assert_eq!(uart_getchar(0x60), None);
}

#[test]
fn timer_and_reset_handlers() {
    assert_eq!(handle_timer(123_456, 0), SbiAction::SetTimer { write: TimerWrite::Wide { addr: CLINT_MTIMECMP, value: 123_456 }, mip_clear: 1 << 5, reply: SbiRet::success(0) });
    assert_eq!(handle_srst(0, 0, 0, 0), SbiAction::Shutdown { addr: 0x100000, value: 0x5555 });
    assert_eq!(handle_srst(9, 0, 0, 0), SbiAction::Shutdown { addr: 0x100000, value: 0x5555 });
}

#[test]
fn trap_handler_dispatches_by_extension() {
    assert_eq!(m_trap_handler(0, 0, 0, 0, 0, 0, 0, 0x10), SbiAction::Reply(SbiRet::success(0x0100_0000)));
    assert_eq!(m_trap_handler(b'k' as usize, 0, 0, 0, 0, 0, 0, 0x01), SbiAction::PutChar { addr: UART_BASE, byte: b'k', reply: SbiRet::success(0) });
    assert_eq!(m_trap_handler(0, 0, 0, 0, 0, 0, 0, 0x02), SbiAction::GetChar { lsr_addr: UART_BASE + 5 });
    assert_eq!(m_trap_handler(99, 0, 0, 0, 0, 0, 0, 0x5449_4D45), SbiAction::SetTimer { write: TimerWrite::Wide { addr: 0x200_4000, value: 99 }, mip_clear: 0x20, reply: SbiRet::success(0) });
    assert_eq!(m_trap_handler(0, 1, 0, 0, 0, 0, 0, 0x5352_5354), SbiAction::Shutdown { addr: 0x100000, value: 0x5555 });
    assert_eq!(m_trap_handler(0, 0, 0, 0, 0, 0, 0, 0x08), SbiAction::Reply(SbiRet::not_supported()));
}

#[test]
fn kernel_calls_are_understood_by_firmware() {
    assert_eq!(console_putchar(0x41), SbiCall { eid: 1, fid: 0, arg0: 0x41, arg1: 0, arg2: 0 });
    assert_eq!(serve(console_putchar(0x41)), SbiAction::PutChar { addr: UART_BASE, byte: 0x41, reply: SbiRet::success(0) });
    assert_eq!(console_getchar(), SbiCall { eid: 2, fid: 0, arg0: 0, arg1: 0, arg2: 0 });
    assert_eq!(serve(console_getchar()), SbiAction::GetChar { lsr_addr: UART_BASE + 5 });
    let calls = shutdown(true);
    assert_eq!(calls.len(), 2);
    assert_eq!(calls[0], SbiCall { eid: 0x5352_5354, fid: 0, arg0: 0, arg1: 1, arg2: 0 });
    assert_eq!(calls[1], SbiCall { eid: 0x08, fid: 0, arg0: 0, arg1: 0, arg2: 0 });
    assert_eq!(serve(calls[0]), SbiAction::Shutdown { addr: 0x100000, value: 0x5555 });
    assert_eq!(serve(calls[1]), SbiAction::Reply(SbiRet::not_supported()));
    assert_eq!(shutdown(false)[0].arg1, 0);
}

#[test]
fn getchar_value_round_trip() {
    for b in 1u8..=255 {
        let v = handle_console_getchar(Some(b)).value;
        assert_eq!(stdio::console_getchar(v), Some(b));
    }
    assert_eq!(stdio::console_getchar(handle_console_getchar(None).value), None);
    // the byte 0 reads as no character
    assert_eq!(stdio::console_getchar(handle_console_getchar(Some(0)).value), None);
}

#[test]
fn getchar_reply_value_is_second_register() {
    assert_eq!(reply_value((0, 0x41)), 0x41);
    assert_eq!(reply_value((-1, usize::MAX)), usize::MAX);
}

#[test]
fn set_timer_call_programs_compare_register() {
    let k = set_timer(0x1_2345_6789);
    assert_eq!(k, SbiCall { eid: 0x5449_4D45, fid: 0, arg0: 0x1_2345_6789, arg1: 0, arg2: 0 });
    assert_eq!(
        serve(k),
        SbiAction::SetTimer {
            write: TimerWrite::Wide { addr: CLINT_MTIMECMP, value: 0x1_2345_6789 },
            mip_clear: 0x20,
            reply: SbiRet::success(0),
        }
    );
}
