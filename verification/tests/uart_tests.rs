use rcore_os::uart::{Uart, UART_BASE};

#[test]
fn init_writes_registers_in_order() {
    let u = Uart::new(UART_BASE);
    let b = UART_BASE;
    assert_eq!(
        u.init(),
        vec![
            (b + 1, 0x00),
            (b + 3, 0x80),
            (b, 0x03),
            (b + 1, 0x00),
            (b + 3, 0x03),
            (b + 2, 0xC7),
            (b + 4, 0x0B),
            (b + 1, 0x00),
        ]
    );
}

#[test]
fn put_waits_for_empty_transmitter() {
    let u = Uart::new(UART_BASE);
    assert_eq!(u.lsr_addr(), UART_BASE + 5);
    assert_eq!(u.put(0x00, b'A'), None);
    assert_eq!(u.put(0x01, b'A'), None);
    assert_eq!(u.put(0x20, b'A'), Some((UART_BASE, b'A')));
    assert_eq!(u.put(0x61, b'z'), Some((UART_BASE, b'z')));
}

#[test]
fn get_reads_only_when_data_ready() {
    let u = Uart::new(0x2000);
    assert_eq!(u.get(0x00), None);
    assert_eq!(u.get(0x20), None);
    assert_eq!(u.get(0x01), Some(0x2000));
    assert_eq!(u.get(0x61), Some(0x2000));
    assert_eq!(u.reg_addr(7), 0x2007);
}

#[test]
fn puts_sends_utf8_bytes() {
    let u = Uart::new(UART_BASE);
    assert_eq!(u.puts("hi"), vec![b'h', b'i']);
    assert_eq!(u.puts("h\u{e9}"), vec![0x68, 0xC3, 0xA9]);
    assert_eq!(u.puts(""), Vec::<u8>::new());
}
