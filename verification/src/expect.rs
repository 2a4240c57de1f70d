//! Needles: matchers consulted on the bytes read so far.

use vstd::prelude::*;
use vstd::utf8::encode_utf8;
use crate::error::{Error, ErrorView};
use crate::pattern::{compile, regex_compiles, regex_find, search};
use crate::search::{find, first_occurrence};

verus! {

/// A half-open byte range `[start, end)` in the buffer a needle looked at.
#[derive(Debug, Clone, Copy, PartialEq, Eq, Structural)]
pub struct Match {
    /// The offset of the first byte of the range.
    pub start: usize,
    /// The offset one past the last byte of the range.
    pub end: usize,
}

impl Match {
    /// Whether the range lies inside a buffer of `len` bytes.
    pub open spec fn within(&self, len: nat) -> bool {
        self.start <= self.end <= len
    }

    /// A range from `start` up to, not including, `end`.
    pub fn new(start: usize, end: usize) -> (m: Self)
        ensures
            m == (Match { start, end }),
    {
        Self { start, end }
    }

    /// The first offset of the range.
    pub fn start(&self) -> (s: usize)
        ensures
            s == self.start,
    {
        self.start
    }

    /// The offset one past the last byte of the range.
    pub fn end(&self) -> (e: usize)
        ensures
            e == self.end,
    {
        self.end
    }
}

/// What a needle says of a buffer: `Ok(Some(m))` where it matches at `m`,
/// `Ok(None)` where it wants to be asked again once more bytes have come.
pub type Verdict = Result<Option<Match>, ErrorView>;

/// The verdict that an answer of a needle stands for.
pub open spec fn verdict_of(answer: Result<Option<Match>, Error>) -> Verdict {
    match answer {
        Ok(found) => Ok(found),
        Err(e) => Err(e@),
    }
}

/// A needle: something that can recognise output in the bytes read so far.
///
/// The answer depends on the buffer and on the end-of-stream flag alone, and a
/// match lies inside the buffer.
pub trait Expect {
    /// The answer of the needle for `buf`, with `eof` telling whether the
    /// stream has ended. A needle that states none of its own is held to
    /// some function of the needle, the buffer and the flag, of which
    /// nothing else is known.
    open spec fn verdict(&self, buf: Seq<u8>, eof: bool) -> Verdict {
        arbitrary::<spec_fn(&Self, Seq<u8>, bool) -> Verdict>()(self, buf, eof)
    }

    /// Looks for the needle in `buf`.
    fn expect(&self, buf: &[u8], eof: bool) -> (r: Result<Option<Match>, Error>)
        ensures
            verdict_of(r) == self.verdict(buf@, eof),
            r matches Ok(Some(m)) ==> m.within(buf@.len()),
    ;
}

/// The needle that matches everything read, once the stream has ended.
pub struct Eof;

impl Expect for Eof {
    open spec fn verdict(&self, buf: Seq<u8>, eof: bool) -> Verdict {
        if eof {
            Ok(Some(Match { start: 0, end: buf.len() as usize }))
        } else {
            Ok(None)
        }
    }

    fn expect(&self, buf: &[u8], eof: bool) -> (r: Result<Option<Match>, Error>) {
        if eof {
            Ok(Some(Match::new(0, buf.len())))
        } else {
            Ok(None)
        }
    }
}

/// The needle that matches the first `self.0` bytes, once the buffer holds
/// more than that many.
pub struct NBytes(pub usize);

impl NBytes {
    /// The number of bytes asked for.
    pub fn count(&self) -> (n: usize)
        ensures
            n == self.0,
    {
        self.0
    }
}

impl Expect for NBytes {
    open spec fn verdict(&self, buf: Seq<u8>, eof: bool) -> Verdict {
        if buf.len() > self.0 {
            Ok(Some(Match { start: 0, end: self.0 }))
        } else {
            Ok(None)
        }
    }

    fn expect(&self, buf: &[u8], eof: bool) -> (r: Result<Option<Match>, Error>) {
        if buf.len() > self.count() {
            Ok(Some(Match::new(0, self.count())))
        } else {
            Ok(None)
        }
    }
}

/// The answer of a literal needle: the leftmost place at which `needle`
/// stands in `buf`, whatever the end-of-stream flag says.
pub open spec fn literal_verdict(needle: Seq<u8>, buf: Seq<u8>) -> Verdict {
    match first_occurrence(needle, buf) {
        Some(at) => Ok(Some(Match { start: at as usize, end: (at + needle.len()) as usize })),
        None => Ok(None),
    }
}

/// Looks for the bytes `needle` in `buf`, leftmost occurrence first.
pub fn expect_literal(needle: &[u8], buf: &[u8]) -> (r: Result<Option<Match>, Error>)
    ensures
        verdict_of(r) == literal_verdict(needle@, buf@),
        r matches Ok(Some(m)) ==> m.within(buf@.len()),
{
    match find(needle, buf) {
        Some(at) => Ok(Some(Match::new(at, at + needle.len()))),
        None => Ok(None),
    }
}

impl Expect for [u8] {
    open spec fn verdict(&self, buf: Seq<u8>, eof: bool) -> Verdict {
        literal_verdict(self@, buf)
    }

    fn expect(&self, buf: &[u8], eof: bool) -> (r: Result<Option<Match>, Error>) {
        expect_literal(self, buf)
    }
}

impl<const N: usize> Expect for [u8; N] {
    open spec fn verdict(&self, buf: Seq<u8>, eof: bool) -> Verdict {
        literal_verdict(self@, buf)
    }

    fn expect(&self, buf: &[u8], eof: bool) -> (r: Result<Option<Match>, Error>) {
        expect_literal(self.as_slice(), buf)
    }
}

impl Expect for Vec<u8> {
    open spec fn verdict(&self, buf: Seq<u8>, eof: bool) -> Verdict {
        literal_verdict(self@, buf)
    }

    fn expect(&self, buf: &[u8], eof: bool) -> (r: Result<Option<Match>, Error>) {
        expect_literal(self.as_slice(), buf)
    }
}

impl Expect for str {
    open spec fn verdict(&self, buf: Seq<u8>, eof: bool) -> Verdict {
        literal_verdict(encode_utf8(self@), buf)
    }

    fn expect(&self, buf: &[u8], eof: bool) -> (r: Result<Option<Match>, Error>) {
        expect_literal(self.as_bytes(), buf)
    }
}

impl Expect for String {
    open spec fn verdict(&self, buf: Seq<u8>, eof: bool) -> Verdict {
        literal_verdict(encode_utf8(self@), buf)
    }

    fn expect(&self, buf: &[u8], eof: bool) -> (r: Result<Option<Match>, Error>) {
        expect_literal(self.as_str().as_bytes(), buf)
    }
}

impl<'a, T: Expect + ?Sized> Expect for &'a T {
    open spec fn verdict(&self, buf: Seq<u8>, eof: bool) -> Verdict {
        (**self).verdict(buf, eof)
    }

    fn expect(&self, buf: &[u8], eof: bool) -> (r: Result<Option<Match>, Error>) {
        (**self).expect(buf, eof)
    }
}

/// The needle that matches where the regular expression `self.0` does,
/// leftmost match first, on bytes. The pattern is a `&str` or a `String`.
pub struct Regex<Re>(pub Re);

/// The answer of a regular-expression needle: `RegexParsing` where the
/// pattern does not compile, else the leftmost-first match, whatever the
/// end-of-stream flag says.
pub open spec fn regex_verdict(pattern: Seq<char>, buf: Seq<u8>) -> Verdict {
    if regex_compiles(pattern) {
        Ok(found_match(regex_find(pattern, buf)))
    } else {
        Err(ErrorView::RegexParsing)
    }
}

/// The range with the bounds that a search gave.
pub open spec fn found_match(found: Option<(usize, usize)>) -> Option<Match> {
    match found {
        Some((start, end)) => Some(Match { start, end }),
        None => None,
    }
}

/// The range with the bounds that a search gave.
pub fn match_of(found: Option<(usize, usize)>) -> (m: Option<Match>)
    ensures
        m == found_match(found),
{
    match found {
        Some((start, end)) => Some(Match::new(start, end)),
        None => None,
    }
}

/// Compiles `pattern` and looks for its leftmost-first match in `buf`.
pub fn expect_regex(pattern: &str, buf: &[u8]) -> (r: Result<Option<Match>, Error>)
    ensures
        verdict_of(r) == regex_verdict(pattern@, buf@),
        r matches Ok(Some(m)) ==> m.within(buf@.len()),
{
    match compile(pattern) {
        Ok(compiled) => Ok(match_of(search(&compiled, buf))),
        Err(_) => Err(Error::RegexParsing),
    }
}

impl<'a> Expect for Regex<&'a str> {
    open spec fn verdict(&self, buf: Seq<u8>, eof: bool) -> Verdict {
        regex_verdict(self.0@, buf)
    }

    fn expect(&self, buf: &[u8], eof: bool) -> (r: Result<Option<Match>, Error>) {
        expect_regex(self.0, buf)
    }
}

impl Expect for Regex<String> {
    open spec fn verdict(&self, buf: Seq<u8>, eof: bool) -> Verdict {
        regex_verdict(self.0@, buf)
    }

    fn expect(&self, buf: &[u8], eof: bool) -> (r: Result<Option<Match>, Error>) {
        expect_regex(self.0.as_str(), buf)
    }
}

} // verus!
