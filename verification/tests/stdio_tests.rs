use rcore_os::stdio::{console_getchar, Stdin, StdinRead, Stdout};

#[test]
fn console_getchar_decodes_sbi_value() {
    assert_eq!(console_getchar(0), None);
    assert_eq!(console_getchar(usize::MAX), None);
    assert_eq!(console_getchar(0x41), Some(0x41));
    assert_eq!(console_getchar(0x141), Some(0x41));
}

#[test]
fn stdin_reads_one_byte_or_suspends() {
    let stdin = Stdin;
    assert!(stdin.readable());
    assert!(!stdin.writable());
    assert_eq!(stdin.read(1, None), StdinRead::Suspend);
    assert_eq!(stdin.read(1, Some(b'q')), StdinRead::Deliver(b'q'));
}

#[test]
fn stdout_write_counts_all_bytes() {
    let stdout = Stdout;
    assert!(!stdout.readable());
    assert!(stdout.writable());
    let bufs = vec![b"hello ".to_vec(), b"w\xc3\xb6rld".to_vec(), Vec::new()];
    let (n, calls) = stdout.write(&bufs);
    assert_eq!(n, 12);
    let text: String = calls.iter().map(|c| char::from_u32(c.arg0 as u32).unwrap()).collect();
    assert_eq!(text, "hello w\u{f6}rld");
    assert!(calls.iter().all(|c| c.eid == 1 && c.fid == 0));
    let (n, calls) = stdout.write(&Vec::new());
    assert_eq!((n, calls.len()), (0, 0));
}
