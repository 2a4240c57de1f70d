//! Streams that a session reads and writes through: what a read can come
//! to, and the stream that keeps a log of its traffic.

use vstd::prelude::*;
use vstd::slice::slice_to_vec;
use vstd::utf8::encode_utf8;
use crate::error::Cause;

verus! {

/// The error number for a failed transfer; a read of a terminal whose other
/// side has gone gives it.
pub const EIO: i32 = 5;

/// The error number for a handle that is not open.
pub const EBADF: i32 = 9;

/// What one read of the stream gave.
#[derive(Debug, PartialEq, Eq)]
pub enum ReadOutcome {
    /// The bytes that were read; none at all means that the stream has ended.
    Bytes(Vec<u8>),
    /// Nothing was there to read within the poll window.
    WouldBlock,
    /// The read failed.
    Failed(Cause),
}

/// Whether a failure of a read says that the child has gone, which ends the
/// stream as a read of no bytes does.
pub open spec fn ends_stream(code: Option<i32>) -> bool {
    code == Some(EIO) || code == Some(EBADF)
}

/// What a read that the system refused comes to: nothing to read where the
/// stream would have blocked, the end of the stream where the child has
/// gone, else the failure.
pub fn failed_read(cause: Cause, would_block: bool) -> (outcome: ReadOutcome)
    ensures
        would_block ==> outcome is WouldBlock,
        !would_block && ends_stream(cause.code) ==> (outcome matches ReadOutcome::Bytes(bytes)
            && bytes@.len() == 0),
        !would_block && !ends_stream(cause.code) ==> outcome == ReadOutcome::Failed(cause),
{
    if would_block {
        ReadOutcome::WouldBlock
    } else {
        match cause.code {
            Some(code) => {
                if code == EIO || code == EBADF {
                    ReadOutcome::Bytes(Vec::new())
                } else {
                    ReadOutcome::Failed(cause)
                }
            },
            None => ReadOutcome::Failed(cause),
        }
    }
}

/// A stream together with a sink that is told of every read and write.
pub struct LoggedStream<S, W> {
    /// The stream that does the reading and writing.
    pub stream: S,
    /// The sink that receives one record for each read and each write.
    pub logger: W,
}

impl<S, W> LoggedStream<S, W> {
    /// Puts `logger` beside `stream`.
    pub fn new(stream: S, logger: W) -> (logged: Self)
        ensures
            logged == (LoggedStream { stream, logger }),
    {
        LoggedStream { stream, logger }
    }

    /// Takes the pair apart again.
    pub fn into_parts(self) -> (parts: (S, W))
        ensures
            parts == (self.stream, self.logger),
    {
        (self.stream, self.logger)
    }
}

/// The way in which bytes passed through a stream.
#[derive(Debug, Clone, Copy, PartialEq, Eq, Structural)]
pub enum Direction {
    /// From the child.
    Read,
    /// To the child.
    Write,
}

/// The digits of `n` in base ten, most significant first, as ASCII.
pub open spec fn decimal(n: nat) -> Seq<u8>
    decreases n,
{
    if n < 10 {
        seq![(48 + n) as u8]
    } else {
        decimal(n / 10).push((48 + n % 10) as u8)
    }
}

/// The word that a record begins with.
pub open spec fn label(direction: Direction) -> Seq<u8> {
    match direction {
        Direction::Read => encode_utf8("read "@),
        Direction::Write => encode_utf8("write "@),
    }
}

/// The record of bytes that passed: the direction, their number, the bytes
/// themselves, and a line feed.
pub open spec fn record_of(direction: Direction, data: Seq<u8>) -> Seq<u8> {
    label(direction) + decimal(data.len()) + encode_utf8(" bytes: "@) + data + seq![0x0Au8]
}

/// The digits of `n` in base ten, most significant first, as ASCII.
pub fn decimal_digits(n: usize) -> (digits: Vec<u8>)
    ensures
        digits@ == decimal(n as nat),
    decreases n,
{
    if n < 10 {
        let mut digits = Vec::new();
        digits.push((48 + n) as u8);
        digits
    } else {
        let mut digits = decimal_digits(n / 10);
        digits.push((48 + n % 10) as u8);
        digits
    }
}

/// Appends `bytes` to `out`.
fn push_all(out: &mut Vec<u8>, bytes: &[u8])
    ensures
        final(out)@ == old(out)@ + bytes@,
{
    let mut piece = slice_to_vec(bytes);
    out.append(&mut piece);
}

/// The record to write to the sink for `data` that passed in `direction`.
pub fn record(direction: Direction, data: &[u8]) -> (line: Vec<u8>)
    ensures
        line@ == record_of(direction, data@),
{
    let mut line = Vec::new();
    match direction {
        Direction::Read => push_all(&mut line, "read ".as_bytes()),
        Direction::Write => push_all(&mut line, "write ".as_bytes()),
    }
    let digits = decimal_digits(data.len());
    push_all(&mut line, digits.as_slice());
    push_all(&mut line, " bytes: ".as_bytes());
    push_all(&mut line, data);
    line.push(0x0A);
    line
}

} // verus!
