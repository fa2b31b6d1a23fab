//! The kernel logger: which records it shows, and how it colours and lays
//! out each line.

use vstd::prelude::*;
use vstd::string::StringSliceAdditionalSpecFns;
use crate::console::{chars_of, decimal, pad_left, fmt_decimal, fmt_pad_left};

verus! {

/// Level of a log record, most severe first.
#[derive(Clone, Copy, Debug, PartialEq, Eq, Structural)]
pub enum LogLevel {
    /// Errors.
    Error,
    /// Warnings.
    Warn,
    /// Information.
    Info,
    /// Debugging output.
    Debug,
    /// Tracing output.
    Trace,
}

/// The most verbose level the logger shows.
#[derive(Clone, Copy, Debug, PartialEq, Eq, Structural)]
pub enum LevelFilter {
    /// Nothing.
    Off,
    /// Errors only.
    Error,
    /// Warnings and errors.
    Warn,
    /// Information and above.
    Info,
    /// Debugging output and above.
    Debug,
    /// Everything.
    Trace,
}

/// ANSI colour code of the lines of a level.
pub open spec fn level_color_spec(level: LogLevel) -> u64 {
    match level {
        LogLevel::Error => 31,
        LogLevel::Warn => 93,
        LogLevel::Info => 34,
        LogLevel::Debug => 32,
        LogLevel::Trace => 90,
    }
}

/// ANSI colour of the lines of a level: red errors, bright yellow warnings,
/// blue information, green debugging output, bright black traces.
pub fn level_color(level: LogLevel) -> (c: u64)
    ensures
        c == level_color_spec(level),
{
    match level {
        LogLevel::Error => 31,  // Red
        LogLevel::Warn => 93,  // BrightYellow
        LogLevel::Info => 34,  // Blue
        LogLevel::Debug => 32,  // Green
        LogLevel::Trace => 90,  // BrightBlack
    }
}

/// Name of a level.
pub open spec fn level_name(level: LogLevel) -> Seq<char> {
    match level {
        LogLevel::Error => seq!['E', 'R', 'R', 'O', 'R'],
        LogLevel::Warn => seq!['W', 'A', 'R', 'N'],
        LogLevel::Info => seq!['I', 'N', 'F', 'O'],
        LogLevel::Debug => seq!['D', 'E', 'B', 'U', 'G'],
        LogLevel::Trace => seq!['T', 'R', 'A', 'C', 'E'],
    }
}

/// Each level is shown by its own name, spelled as the `log` crate spells
/// it (upper case), and every name fits the five columns the log line gives
/// it.
pub proof fn lemma_level_names(a: LogLevel, b: LogLevel)
    ensures
        level_name(a) == level_name(b) ==> a == b,
        level_name(a).len() <= 5,
        level_name(LogLevel::Error) == seq!['E', 'R', 'R', 'O', 'R'],
        level_name(LogLevel::Warn) == seq!['W', 'A', 'R', 'N'],
        level_name(LogLevel::Info) == seq!['I', 'N', 'F', 'O'],
        level_name(LogLevel::Debug) == seq!['D', 'E', 'B', 'U', 'G'],
        level_name(LogLevel::Trace) == seq!['T', 'R', 'A', 'C', 'E'],
{
    if a != b {
        assert(level_name(a)[0] != level_name(b)[0]);
    }
}

impl LogLevel {
    /// Name of the level.
    pub fn as_str(&self) -> (s: &'static str)
        ensures
            s@ == level_name(*self),
    {
        match self {
            LogLevel::Error => {
                proof {
                    reveal_strlit("ERROR");
                }
                "ERROR"
            },
            LogLevel::Warn => {
                proof {
                    reveal_strlit("WARN");
                }
                "WARN"
            },
            LogLevel::Info => {
                proof {
                    reveal_strlit("INFO");
                }
                "INFO"
            },
            LogLevel::Debug => {
                proof {
                    reveal_strlit("DEBUG");
                }
                "DEBUG"
            },
            LogLevel::Trace => {
                proof {
                    reveal_strlit("TRACE");
                }
                "TRACE"
            },
        }
    }
}

/// Whether two strings are equal.
pub fn str_eq(a: &str, b: &str) -> (r: bool)
    ensures
        r == (a@ == b@),
{
    let x = a.as_bytes();
    let y = b.as_bytes();
    proof {
        vstd::utf8::encode_utf8_decode_utf8(a@);
        vstd::utf8::encode_utf8_decode_utf8(b@);
    }
    if x.len() != y.len() {
        return false;
    }
    let mut i: usize = 0;
    while i < x.len()
        invariant
            0 <= i <= x@.len(),
            x@.len() == y@.len(),
            x@.take(i as int) == y@.take(i as int),
            x@ == a.spec_bytes(),
            y@ == b.spec_bytes(),
        decreases x@.len() - i,
    {
        if x[i] != y[i] {
            proof {
                assert(x@[i as int] != y@[i as int]);
                assert(x@ != y@);
                assert(a.spec_bytes() != b.spec_bytes());
                assert(a@ != b@);
            }
            return false;
        }
        i = i + 1;
        proof {
            assert(x@.take(i as int) =~= x@.take(i as int - 1).push(x@[i as int - 1]));
            assert(y@.take(i as int) =~= y@.take(i as int - 1).push(y@[i as int - 1]));
        }
    }
    proof {
        assert(x@ =~= x@.take(i as int));
        assert(y@ =~= y@.take(i as int));
    }
    true
}

/// The level filter the logger is set up with for the value of the `LOG`
/// variable at build time: the named level, and `Info` when the variable is
/// unset or names no level.
pub open spec fn max_level_for(log: Option<Seq<char>>) -> LevelFilter {
    match log {
        Some(s) => if s == seq!['E', 'R', 'R', 'O', 'R'] {
            LevelFilter::Error
        } else if s == seq!['W', 'A', 'R', 'N'] {
            LevelFilter::Warn
        } else if s == seq!['I', 'N', 'F', 'O'] {
            LevelFilter::Info
        } else if s == seq!['D', 'E', 'B', 'U', 'G'] {
            LevelFilter::Debug
        } else if s == seq!['T', 'R', 'A', 'C', 'E'] {
            LevelFilter::Trace
        } else {
            LevelFilter::Info
        },
        None => LevelFilter::Info,
    }
}

/// Initialize logger: the maximum level to show, given the value of the
/// `LOG` variable at build time.
pub fn init(log: Option<&str>) -> (f: LevelFilter)
    ensures
        f == max_level_for(
            match log {
                Some(s) => Some(s@),
                None => None,
            },
        ),
{
    proof {
        reveal_strlit("ERROR");
        reveal_strlit("WARN");
        reveal_strlit("INFO");
        reveal_strlit("DEBUG");
        reveal_strlit("TRACE");
        assert("ERROR"@ =~= seq!['E', 'R', 'R', 'O', 'R']);
        assert("WARN"@ =~= seq!['W', 'A', 'R', 'N']);
        assert("INFO"@ =~= seq!['I', 'N', 'F', 'O']);
        assert("DEBUG"@ =~= seq!['D', 'E', 'B', 'U', 'G']);
        assert("TRACE"@ =~= seq!['T', 'R', 'A', 'C', 'E']);
    }
    match log {
        Some(s) => {
            if str_eq(s, "ERROR") {
                LevelFilter::Error
            } else if str_eq(s, "WARN") {
                LevelFilter::Warn
            } else if str_eq(s, "INFO") {
                LevelFilter::Info
            } else if str_eq(s, "DEBUG") {
                LevelFilter::Debug
            } else if str_eq(s, "TRACE") {
                LevelFilter::Trace
            } else {
                LevelFilter::Info
            }
        },
        None => LevelFilter::Info,
    }
}

/// The line the logger prints for a record: the colour escape, the time
/// right-aligned in five columns, the level name right-aligned in five
/// columns, the message, the colour reset and a newline.
pub open spec fn log_line_spec(level: LogLevel, time_ms: u64, msg: Seq<char>) -> Seq<char> {
    seq!['\u{1B}', '['] + decimal(level_color_spec(level) as nat) + seq!['m', '['] + pad_left(
        decimal(time_ms as nat),
        5,
    ) + seq![' ', 'm', 's', ']', ' ', '['] + pad_left(level_name(level), 5) + seq![']', ' ']
        + msg + seq!['\u{1B}', '[', '0', 'm', '\n']
}

/// Append the characters of `s` to `v`.
fn push_all(v: &mut Vec<char>, s: &Vec<char>)
    ensures
        final(v)@ == old(v)@ + s@,
{
    let mut i: usize = 0;
    while i < s.len()
        invariant
            0 <= i <= s@.len(),
            v@ == old(v)@ + s@.take(i as int),
        decreases s@.len() - i,
    {
        v.push(s[i]);
        i = i + 1;
        proof {
            assert(v@ =~= old(v)@ + s@.take(i as int));
        }
    }
    proof {
        assert(s@.take(i as int) =~= s@);
    }
}

/// The line printed for a record of `level` with the message `msg`, at
/// `time_ms` milliseconds.
pub fn log_line(level: LogLevel, time_ms: u64, msg: &str) -> (line: Vec<char>)
    ensures
        line@ == log_line_spec(level, time_ms, msg@),
{
    let mut line: Vec<char> = Vec::new();
    line.push('\u{1B}');
    line.push('[');
    let color = fmt_decimal(level_color(level));
    push_all(&mut line, &color);
    line.push('m');
    line.push('[');
    let time = fmt_pad_left(&fmt_decimal(time_ms), 5);
    push_all(&mut line, &time);
    line.push(' ');
    line.push('m');
    line.push('s');
    line.push(']');
    line.push(' ');
    line.push('[');
    let name = fmt_pad_left(&chars_of(level.as_str()), 5);
    push_all(&mut line, &name);
    line.push(']');
    line.push(' ');
    let text = chars_of(msg);
    push_all(&mut line, &text);
    line.push('\u{1B}');
    line.push('[');
    line.push('0');
    line.push('m');
    line.push('\n');
    proof {
        assert(line@ =~= log_line_spec(level, time_ms, msg@));
    }
    line
}

} // verus!
