use rcore_os::console::{chars_of, fmt_decimal, fmt_pad_left, print, print_with_time};
use rcore_os::logging::{init, level_color, log_line, str_eq, LevelFilter, LogLevel};
use rcore_os::msbi::{m_trap_handler, SbiAction};
use rcore_os::sbi::SbiCall;

fn text(calls: &[SbiCall]) -> String {
    calls.iter().map(|c| char::from_u32(c.arg0 as u32).unwrap()).collect()
}

#[test]
fn decimal_and_padding() {
    assert_eq!(fmt_decimal(0), vec!['0']);
    assert_eq!(fmt_decimal(1234), vec!['1', '2', '3', '4']);
    assert_eq!(fmt_decimal(u64::MAX).iter().collect::<String>(), u64::MAX.to_string());
    assert_eq!(fmt_pad_left(&vec!['4', '2'], 5), vec![' ', ' ', ' ', '4', '2']);
    assert_eq!(fmt_pad_left(&vec!['1', '2', '3', '4', '5', '6'], 5).len(), 6);
    assert_eq!(chars_of("h\u{e9}"), vec!['h', '\u{e9}']);
}

#[test]
fn print_makes_one_call_per_char() {
    let calls = print("hi");
    assert_eq!(calls.len(), 2);
    assert_eq!(calls[0], SbiCall { eid: 1, fid: 0, arg0: 'h' as usize, arg1: 0, arg2: 0 });
    assert_eq!(text(&calls), "hi");
    let bytes: Vec<SbiAction> = calls
        .iter()
        .map(|k| m_trap_handler(k.arg0, k.arg1, k.arg2, 0, 0, 0, k.fid, k.eid))
        .collect();
    assert_eq!(bytes[1], SbiAction::PutChar { addr: 0x1000_0000, byte: b'i', reply: rcore_os::msbi::SbiRet::success(0) });
}

#[test]
fn print_with_time_stamps_the_text() {
    assert_eq!(text(&print_with_time(42, "x\n")), "[   42 ms] x\n");
    assert_eq!(text(&print_with_time(123456, "y")), "[123456 ms] y");
    assert_eq!(text(&print_with_time(0, "")), format!("[{:>5} ms] ", 0));
}

#[test]
fn log_levels() {
    assert_eq!(level_color(LogLevel::Error), 31);
    assert_eq!(level_color(LogLevel::Warn), 93);
    assert_eq!(level_color(LogLevel::Info), 34);
    assert_eq!(level_color(LogLevel::Debug), 32);
    assert_eq!(level_color(LogLevel::Trace), 90);
    assert_eq!(LogLevel::Warn.as_str(), "WARN");
}

#[test]
fn logger_max_level_from_build_variable() {
    assert_eq!(init(Some("ERROR")), LevelFilter::Error);
    assert_eq!(init(Some("WARN")), LevelFilter::Warn);
    assert_eq!(init(Some("INFO")), LevelFilter::Info);
    assert_eq!(init(Some("DEBUG")), LevelFilter::Debug);
    assert_eq!(init(Some("TRACE")), LevelFilter::Trace);
    assert_eq!(init(Some("debug")), LevelFilter::Info);
    assert_eq!(init(None), LevelFilter::Info);
    assert!(str_eq("abc", "abc"));
    assert!(!str_eq("abc", "abd"));
    assert!(!str_eq("abc", "ab"));
}

#[test]
fn log_line_layout() {
    let line: String = log_line(LogLevel::Warn, 7, "disk slow").into_iter().collect();
    assert_eq!(line, "\u{1B}[93m[    7 ms] [ WARN] disk slow\u{1B}[0m\n");
    let line: String = log_line(LogLevel::Error, 12345, "x").into_iter().collect();
    assert_eq!(line, format!("\u{1B}[31m[{:>5} ms] [{:>5}] x\u{1B}[0m\n", 12345, "ERROR"));
}
