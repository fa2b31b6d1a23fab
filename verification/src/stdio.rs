//! Standard input and output of user programs.

use vstd::prelude::*;
use vstd::string::StringSliceAdditionalSpecFns;
use vstd::utf8::{decode_utf8, valid_utf8};
use crate::console::{print, putchar_calls};
use crate::sbi::SbiCall;

verus! {

/// Standard input
pub struct Stdin;

/// Standard output
pub struct Stdout;

/// The character a console getchar reply stands for: none when the value is
/// 0 or `usize::MAX`, otherwise its low byte.
pub open spec fn console_char(c: usize) -> Option<u8> {
    if c == 0 || c == usize::MAX {
        None
    } else {
        Some((c % 256) as u8)
    }
}

/// Read a character from console: the value an SBI console getchar call
/// returned, read as a character.
pub fn console_getchar(c: usize) -> (r: Option<u8>)
    ensures
        r == console_char(c),
{
    if c == 0 || c == usize::MAX {
        None
    } else {
        let b: u8 = c as u8;
        assert(b == c % 256) by (bit_vector)
            requires
                b == c as u8,
        ;
        Some(b)
    }
}

/// One round of reading standard input.
#[derive(Clone, Copy, Debug, PartialEq, Eq, Structural)]
pub enum StdinRead {
    /// Nothing was read: suspend the calling task, switch to the next one,
    /// and try the read once more when the caller is scheduled.
    Suspend,
    /// Store the byte as the only byte of the user buffer; the read returns 1.
    Deliver(u8),
}

impl Stdin {
    /// Standard input can be read.
    pub fn readable(&self) -> (r: bool)
        ensures
            r,
    {
        true
    }

    /// Standard input cannot be written.
    pub fn writable(&self) -> (r: bool)
        ensures
            !r,
    {
        false
    }

    /// One round of a read into a user buffer of `buf_len` bytes (which must
    /// be 1), given what polling the console gave.
    pub fn read(&self, buf_len: usize, polled: Option<u8>) -> (r: StdinRead)
        requires
            buf_len == 1,
        ensures
            polled is None ==> r == StdinRead::Suspend,
            polled matches Some(c) ==> r == StdinRead::Deliver(c),
    {
        match polled {
            Some(c) => StdinRead::Deliver(c),
            None => StdinRead::Suspend,
        }
    }
}

/// Total number of bytes of a list of buffers.
pub open spec fn total_len(buffers: Seq<Vec<u8>>) -> nat
    decreases buffers.len(),
{
    if buffers.len() == 0 {
        0
    } else {
        total_len(buffers.drop_last()) + buffers.last()@.len()
    }
}

impl Stdout {
    /// Standard output cannot be read.
    pub fn readable(&self) -> (r: bool)
        ensures
            !r,
    {
        false
    }

    /// Standard output can be written.
    pub fn writable(&self) -> (r: bool)
        ensures
            r,
    {
        true
    }

    /// Write user buffers, each of which must hold UTF-8 text: the text of
    /// the buffers, in order, is printed without a timestamp (the console
    /// calls are returned, one per character), and the number of bytes
    /// written, all of them, is returned with them.
    pub fn write(&self, buffers: &Vec<Vec<u8>>) -> (r: (usize, Vec<SbiCall>))
        requires
            forall|i: int| 0 <= i < buffers@.len() ==> valid_utf8(#[trigger] buffers@[i]@),
            total_len(buffers@) <= usize::MAX,
        ensures
            r.0 == total_len(buffers@),
            r.1@ == putchar_calls(buffers_text(buffers@)),
    {
        let mut n: usize = 0;
        let mut calls: Vec<SbiCall> = Vec::new();
        let mut i: usize = 0;
        while i < buffers.len()
            invariant
                0 <= i <= buffers@.len(),
                n == total_len(buffers@.take(i as int)),
                calls@ == putchar_calls(buffers_text(buffers@.take(i as int))),
                total_len(buffers@) <= usize::MAX,
                forall|j: int| 0 <= j < buffers@.len() ==> valid_utf8(#[trigger] buffers@[j]@),
            decreases buffers@.len() - i,
        {
            proof {
                assert(buffers@.take(i as int + 1).drop_last() =~= buffers@.take(i as int));
                lemma_total_len_prefix(buffers@, i as int + 1);
            }
            let text = utf8_text(buffers[i].as_slice());
            match text {
                Some(s) => {
                    let mut more = print(s);
                    proof {
                        vstd::utf8::encode_utf8_decode_utf8(s@);
                        assert(s@ == decode_utf8(buffers@[i as int]@));
                        assert(buffers_text(buffers@.take(i as int + 1)) =~= buffers_text(
                            buffers@.take(i as int),
                        ) + s@);
                        assert(putchar_calls(buffers_text(buffers@.take(i as int)) + s@)
                            =~= putchar_calls(buffers_text(buffers@.take(i as int)))
                            + putchar_calls(s@));
                    }
                    calls.append(&mut more);
                },
                None => {},
            }
            n = n + buffers[i].len();
            i = i + 1;
        }
        proof {
            assert(buffers@.take(i as int) =~= buffers@);
        }
        (n, calls)
    }
}

/// The text of a list of buffers holding UTF-8: their decoded characters,
/// buffer after buffer.
pub open spec fn buffers_text(buffers: Seq<Vec<u8>>) -> Seq<char>
    decreases buffers.len(),
{
    if buffers.len() == 0 {
        Seq::empty()
    } else {
        buffers_text(buffers.drop_last()) + decode_utf8(buffers.last()@)
    }
}

/// `core::str::from_utf8`: the string a byte slice encodes. As its
/// documentation says, the result is an error exactly when the bytes are not
/// valid UTF-8, and otherwise the string slice over those very bytes. The
/// contract claims that, with vstd's `valid_utf8` as the meaning of "valid
/// UTF-8"; the error's details are dropped.
#[verifier::external_body]
fn utf8_text(bytes: &[u8]) -> (text: Option<&str>)
    ensures
        text is Some <==> valid_utf8(bytes@),
        text is Some ==> text->0.spec_bytes() == bytes@,
{
    core::str::from_utf8(bytes).ok()
}

/// The bytes of a prefix of buffers are no more than those of all of them.
proof fn lemma_total_len_prefix(buffers: Seq<Vec<u8>>, k: int)
    requires
        0 <= k <= buffers.len(),
    ensures
        total_len(buffers.take(k)) <= total_len(buffers),
    decreases buffers.len(),
{
    if k < buffers.len() {
        assert(buffers.drop_last().take(k) =~= buffers.take(k));
        lemma_total_len_prefix(buffers.drop_last(), k);
    } else {
        assert(buffers.take(k) =~= buffers);
    }
}

} // verus!
