//! Console output through the SBI: text, and text stamped with the time.

use vstd::prelude::*;
use crate::sbi::{SbiCall, call, console_putchar, SBI_CONSOLE_PUTCHAR};
use crate::msbi::{sbi_dispatch, SbiAction, UART_BASE};
use vstd::utf8::{encode_utf8, is_ascii_chars};

verus! {

/// The characters of a string, in order.
pub fn chars_of(s: &str) -> (v: Vec<char>)
    ensures
        v@ == s@,
{
    let mut v: Vec<char> = Vec::new();
    for c in it: s.chars()
        invariant
            v@ == it.seq().take(it.index() as int),
    {
        v.push(c);
    }
    v
}


/// The character of a decimal digit.
pub open spec fn digit_char(d: nat) -> char {
    (d + 48) as char
}

/// The decimal representation of `n`, without leading zeros.
pub open spec fn decimal(n: nat) -> Seq<char>
    decreases n,
{
    if n < 10 {
        seq![digit_char(n)]
    } else {
        decimal(n / 10).push(digit_char(n % 10))
    }
}

/// `s` right-aligned in a field of `width` characters, padded with spaces.
pub open spec fn pad_left(s: Seq<char>, width: nat) -> Seq<char> {
    if s.len() < width {
        Seq::new((width - s.len()) as nat, |i: int| ' ') + s
    } else {
        s
    }
}

/// The stamp put before timed console output: `[` then the time in
/// milliseconds right-aligned in five columns, then ` ms] `.
pub open spec fn time_prefix(time_ms: u64) -> Seq<char> {
    seq!['['] + pad_left(decimal(time_ms as nat), 5) + seq![' ', 'm', 's', ']', ' ']
}

/// The console putchar calls that output the characters, one per character,
/// each passing the character's code point.
pub open spec fn putchar_calls(chars: Seq<char>) -> Seq<SbiCall> {
    chars.map_values(|c: char| call(SBI_CONSOLE_PUTCHAR, 0, c as usize, 0, 0))
}

/// The character of the decimal digit `d`.
fn digit(d: u64) -> (c: char)
    requires
        d < 10,
    ensures
        c == digit_char(d as nat),
{
    let b: u8 = (d as u8) + 48;
    b as char
}

/// The decimal representation of `n`.
pub fn fmt_decimal(n: u64) -> (v: Vec<char>)
    ensures
        v@ == decimal(n as nat),
    decreases n,
{
    if n < 10 {
        let mut v: Vec<char> = Vec::new();
        v.push(digit(n));
        proof {
            assert(v@ =~= decimal(n as nat));
        }
        v
    } else {
        let mut v = fmt_decimal(n / 10);
        v.push(digit(n % 10));
        v
    }
}

/// `s` right-aligned in a field of `width` characters, padded with spaces.
pub fn fmt_pad_left(s: &Vec<char>, width: usize) -> (v: Vec<char>)
    ensures
        v@ == pad_left(s@, width as nat),
{
    let mut v: Vec<char> = Vec::new();
    if s.len() < width {
        let pad = width - s.len();
        let mut i: usize = 0;
        while i < pad
            invariant
                0 <= i <= pad,
                v@ == Seq::new(i as nat, |j: int| ' '),
            decreases pad - i,
        {
            v.push(' ');
            i = i + 1;
            proof {
                assert(v@ =~= Seq::new(i as nat, |j: int| ' '));
            }
        }
    }
    let ghost front = v@;
    let mut k: usize = 0;
    while k < s.len()
        invariant
            0 <= k <= s@.len(),
            v@ == front + s@.take(k as int),
        decreases s@.len() - k,
    {
        v.push(s[k]);
        k = k + 1;
        proof {
            assert(v@ =~= front + s@.take(k as int));
        }
    }
    proof {
        assert(s@.take(k as int) =~= s@);
        if s@.len() < width {
            assert(v@ =~= pad_left(s@, width as nat));
        } else {
            assert(front =~= Seq::<char>::empty());
            assert(v@ =~= s@);
        }
    }
    v
}

/// Console putchar calls for each character, in order.
fn putchar_each(calls: &mut Vec<SbiCall>, chars: &Vec<char>)
    ensures
        final(calls)@ == old(calls)@ + putchar_calls(chars@),
{
    let mut i: usize = 0;
    while i < chars.len()
        invariant
            0 <= i <= chars@.len(),
            calls@ == old(calls)@ + putchar_calls(chars@.take(i as int)),
        decreases chars@.len() - i,
    {
        let c = chars[i];
        calls.push(console_putchar(c as usize));
        i = i + 1;
        proof {
            assert(calls@ =~= old(calls)@ + putchar_calls(chars@.take(i as int)));
        }
    }
    proof {
        assert(chars@.take(i as int) =~= chars@);
    }
}

/// Print without timestamp: one console putchar call per character of the
/// text, in order.
pub fn print(s: &str) -> (calls: Vec<SbiCall>)
    ensures
        calls@ == putchar_calls(s@),
{
    let chars = chars_of(s);
    let mut calls: Vec<SbiCall> = Vec::new();
    putchar_each(&mut calls, &chars);
    proof {
        assert(calls@ =~= putchar_calls(s@));
    }
    calls
}

/// Print with timestamp prefix: the stamp of `time_ms` and then the text,
/// one console putchar call per character.
pub fn print_with_time(time_ms: u64, s: &str) -> (calls: Vec<SbiCall>)
    ensures
        calls@ == putchar_calls(time_prefix(time_ms) + s@),
{
    let mut prefix: Vec<char> = Vec::new();
    prefix.push('[');
    let digits = fmt_decimal(time_ms);
    let padded = fmt_pad_left(&digits, 5);
    let ghost p0 = prefix@;
    let mut k: usize = 0;
    while k < padded.len()
        invariant
            0 <= k <= padded@.len(),
            prefix@ == p0 + padded@.take(k as int),
        decreases padded@.len() - k,
    {
        prefix.push(padded[k]);
        k = k + 1;
        proof {
            assert(prefix@ =~= p0 + padded@.take(k as int));
        }
    }
    prefix.push(' ');
    prefix.push('m');
    prefix.push('s');
    prefix.push(']');
    prefix.push(' ');
    proof {
        assert(padded@.take(k as int) =~= padded@);
        assert(prefix@ =~= time_prefix(time_ms));
    }
    let chars = chars_of(s);
    let mut calls: Vec<SbiCall> = Vec::new();
    putchar_each(&mut calls, &prefix);
    putchar_each(&mut calls, &chars);
    proof {
        assert(putchar_calls(time_prefix(time_ms) + s@) =~= putchar_calls(time_prefix(time_ms))
            + putchar_calls(s@));
        assert(calls@ =~= putchar_calls(time_prefix(time_ms) + s@));
    }
    calls
}


/// ASCII text printed on the console reaches the UART byte for byte: the
/// M-mode handler writes, for the i-th call, the i-th byte of the text's
/// encoding.
pub proof fn lemma_ascii_print_reaches_uart(s: Seq<char>)
    requires
        is_ascii_chars(s),
    ensures
        putchar_calls(s).len() == encode_utf8(s).len(),
        forall|i: int|
            0 <= i < s.len() ==> {
                let k = #[trigger] putchar_calls(s)[i];
                sbi_dispatch(k.arg0, k.arg1, k.fid, k.eid) == SbiAction::PutChar {
                    addr: UART_BASE,
                    byte: encode_utf8(s)[i],
                    reply: crate::msbi::SbiRet { error: 0, value: 0 },
                }
            },
{
    vstd::utf8::is_ascii_chars_encode_utf8(s);
    assert forall|i: int| 0 <= i < s.len() implies {
        let k = #[trigger] putchar_calls(s)[i];
        sbi_dispatch(k.arg0, k.arg1, k.fid, k.eid) == SbiAction::PutChar {
            addr: UART_BASE,
            byte: encode_utf8(s)[i],
                    reply: crate::msbi::SbiRet { error: 0, value: 0 },
        }
    } by {
        let c = s[i];
        assert((c as u32) < 128);
        assert(encode_utf8(s)[i] == c as u8);
    }
}

} // verus!
