//! A session: a child process, the stream to it, and the engine that waits
//! for a needle to match what the child has written.
//!
//! The engine reads nothing itself. `expect` decides on the bytes at hand and
//! says whether to read; the caller reads and hands the outcome to `feed`.

use vstd::prelude::*;
use vstd::slice::slice_to_vec;
use crate::search::{find, first_occurrence, lemma_empty_occurs_first};
use crate::captures::{split_at_match, Captures};
use crate::error::{failure_view, Error, ErrorView};
use crate::expect::{literal_verdict, Eof, Expect, Match, Verdict};
use crate::interact::{reachable, transition, Action, Event, Interact, Outcome};
use crate::process::Process;
use crate::stream::{LoggedStream, ReadOutcome};

verus! {

/// The longest that one poll of the stream may take, in milliseconds.
pub const POLL_WINDOW: u64 = 10;

/// The most bytes that one read for an expect takes: one, so that a needle
/// is asked about every prefix of what the child writes, and matches on the
/// shortest that it can match on.
pub const READ_LIMIT: usize = 1;

/// The time that a new session gives an `expect`, in milliseconds.
pub const DEFAULT_TIMEOUT: u64 = 10000;

/// What the engine has decided.
#[derive(Debug, PartialEq, Eq)]
pub enum Step {
    /// The needle matched.
    Matched(Captures),
    /// The expect has failed.
    Failed(Error),
    /// More bytes are needed: poll the stream for at most `window`
    /// milliseconds, read at most `limit` bytes, and feed the outcome.
    Read { window: u64, limit: usize },
}

/// A `Step` as contracts speak of it.
pub enum StepView {
    Matched { before: Seq<u8>, matched: Seq<u8>, after: Seq<u8> },
    Failed(ErrorView),
    Read { window: u64, limit: usize },
}

impl View for Step {
    type V = StepView;

    open spec fn view(&self) -> StepView {
        match *self {
            Step::Matched(c) => StepView::Matched {
                before: c.before@,
                matched: c.matched@,
                after: c.after@,
            },
            Step::Failed(e) => StepView::Failed(e@),
            Step::Read { window, limit } => StepView::Read { window, limit },
        }
    }
}

/// The poll window at `elapsed` milliseconds into an expect: the usual
/// window, cut down to what is left until the deadline.
pub open spec fn window_at(timeout: Option<u64>, elapsed: u64) -> u64 {
    match timeout {
        None => POLL_WINDOW,
        Some(limit) => if elapsed >= limit {
            0
        } else if limit - elapsed < POLL_WINDOW {
            (limit - elapsed) as u64
        } else {
            POLL_WINDOW
        },
    }
}

/// What the engine decides on a buffer of which the needle has said
/// `verdict`: a match cuts the buffer; no match at the end of the stream
/// fails with the buffer; no match before it asks for a read of one byte.
pub open spec fn decide(
    buffer: Seq<u8>,
    eof: bool,
    timeout: Option<u64>,
    verdict: Verdict,
    elapsed: u64,
) -> StepView {
    match verdict {
        Ok(Some(m)) => {
            let (before, matched, after) = split_at_match(buffer, m);
            StepView::Matched { before, matched, after }
        },
        Ok(None) => if eof {
            StepView::Failed(ErrorView::Eof { buffer })
        } else {
            StepView::Read { window: window_at(timeout, elapsed), limit: READ_LIMIT }
        },
        Err(e) => StepView::Failed(e),
    }
}

/// The bytes that stay in the buffer once the needle has said `verdict`:
/// those behind a match, or all of them where there is none.
pub open spec fn remainder(buffer: Seq<u8>, verdict: Verdict) -> Seq<u8> {
    match verdict {
        Ok(Some(m)) => buffer.subrange(m.end as int, buffer.len() as int),
        _ => buffer,
    }
}

/// The buffer and the end-of-stream flag after a read that gave `outcome`.
/// Bytes are appended; a read of no bytes ends the stream; once the stream
/// has ended nothing is taken in any more.
pub open spec fn absorbed(buffer: Seq<u8>, eof: bool, outcome: ReadOutcome) -> (Seq<u8>, bool) {
    match outcome {
        ReadOutcome::Bytes(bytes) => if eof {
            (buffer, true)
        } else if bytes@.len() == 0 {
            (buffer, true)
        } else {
            (buffer + bytes@, false)
        },
        _ => (buffer, eof),
    }
}

/// The failure, if any, with which a read that gave `outcome` ends the
/// expect: a failed read does, and so does one that found nothing once
/// `elapsed` has reached the timeout.
pub open spec fn refusal(timeout: Option<u64>, outcome: ReadOutcome, elapsed: u64) -> Option<
    ErrorView,
> {
    match outcome {
        ReadOutcome::Bytes(_) => None,
        ReadOutcome::WouldBlock => match timeout {
            Some(limit) => if elapsed >= limit {
                Some(ErrorView::ExpectTimeout)
            } else {
                None
            },
            None => None,
        },
        ReadOutcome::Failed(cause) => Some(ErrorView::Io(cause@)),
    }
}

/// The byte that ends a line of the child's output.
pub const LINE_FEED: u8 = 10;

/// The length of the first line in `buffer`, its line feed counted: 0 where
/// no line is there yet. Once the stream has ended, bytes that no line feed
/// follows are a line.
pub open spec fn line_length(buffer: Seq<u8>, eof: bool) -> nat {
    match first_occurrence(seq![LINE_FEED], buffer) {
        Some(at) => (at + 1) as nat,
        None => if eof {
            buffer.len()
        } else {
            0
        },
    }
}

/// The first line in `buffer`, if one is there.
pub open spec fn first_line(buffer: Seq<u8>, eof: bool) -> Option<Seq<u8>> {
    if line_length(buffer, eof) == 0 {
        None
    } else {
        Some(buffer.take(line_length(buffer, eof) as int))
    }
}

/// The view of an optional line.
pub open spec fn line_view(line: Option<Vec<u8>>) -> Option<Seq<u8>> {
    match line {
        Some(bytes) => Some(bytes@),
        None => None,
    }
}

/// A child process, the stream to it, the bytes read from it that no match
/// has consumed yet, and the time an `expect` may take.
pub struct Session<P, S> {
    proc: P,
    stream: S,
    buffer: Vec<u8>,
    eof_seen: bool,
    expect_timeout: Option<u64>,
}

impl<P, S> Session<P, S> {
    /// The process of the session.
    pub closed spec fn process(&self) -> P {
        self.proc
    }

    /// The stream of the session.
    pub closed spec fn stream(&self) -> S {
        self.stream
    }

    /// The bytes read and not yet consumed.
    pub closed spec fn buffered(&self) -> Seq<u8> {
        self.buffer@
    }

    /// Whether the stream has been seen to end.
    pub closed spec fn at_eof(&self) -> bool {
        self.eof_seen
    }

    /// The time an `expect` may take, in milliseconds; `None` for no limit.
    pub closed spec fn timeout(&self) -> Option<u64> {
        self.expect_timeout
    }

    /// Whether `self` differs from `other` in nothing but the buffered bytes
    /// and the end-of-stream flag.
    pub open spec fn same_setup(&self, other: &Self) -> bool {
        &&& self.process() == other.process()
        &&& self.stream() == other.stream()
        &&& self.timeout() == other.timeout()
    }

    /// A session on `process` and `stream` that has read nothing yet.
    pub fn new(process: P, stream: S) -> (session: Self)
        ensures
            session.process() == process,
            session.stream() == stream,
            session.buffered() == Seq::<u8>::empty(),
            !session.at_eof(),
            session.timeout() == Some(DEFAULT_TIMEOUT),
    {
        Session {
            proc: process,
            stream,
            buffer: Vec::new(),
            eof_seen: false,
            expect_timeout: Some(DEFAULT_TIMEOUT),
        }
    }

    /// Sets the time an `expect` may take, in milliseconds; `None` lets it
    /// wait for ever.
    pub fn set_expect_timeout(&mut self, expect_timeout: Option<u64>)
        ensures
            final(self).timeout() == expect_timeout,
            final(self).process() == old(self).process(),
            final(self).stream() == old(self).stream(),
            final(self).buffered() == old(self).buffered(),
            final(self).at_eof() == old(self).at_eof(),
    {
        self.expect_timeout = expect_timeout;
    }

    /// The time an `expect` may take, in milliseconds.
    pub fn expect_timeout(&self) -> (t: Option<u64>)
        ensures
            t == self.timeout(),
    {
        self.expect_timeout
    }

    /// The bytes read and not yet consumed.
    pub fn buffer(&self) -> (bytes: &[u8])
        ensures
            bytes@ == self.buffered(),
    {
        self.buffer.as_slice()
    }

    /// Whether the stream has been seen to end.
    pub fn is_eof(&self) -> (eof: bool)
        ensures
            eof == self.at_eof(),
    {
        self.eof_seen
    }

    /// The process of the session.
    pub fn get_process(&self) -> (process: &P)
        ensures
            *process == self.process(),
    {
        &self.proc
    }

    /// The stream of the session.
    pub fn get_stream(&self) -> (stream: &S)
        ensures
            *stream == self.stream(),
    {
        &self.stream
    }

    /// The process of the session, to act on.
    pub fn get_process_mut(&mut self) -> (process: &mut P)
        ensures
            *process == old(self).process(),
            final(self).process() == *final(process),
            final(self).stream() == old(self).stream(),
            final(self).buffered() == old(self).buffered(),
            final(self).at_eof() == old(self).at_eof(),
            final(self).timeout() == old(self).timeout(),
    {
        &mut self.proc
    }

    /// The stream of the session, to read from and write to. Bytes that are
    /// read from it past the session are lost to the session.
    pub fn get_stream_mut(&mut self) -> (stream: &mut S)
        ensures
            *stream == old(self).stream(),
            final(self).stream() == *final(stream),
            final(self).process() == old(self).process(),
            final(self).buffered() == old(self).buffered(),
            final(self).at_eof() == old(self).at_eof(),
            final(self).timeout() == old(self).timeout(),
    {
        &mut self.stream
    }

    /// Takes the session apart: the process, the stream, and the bytes read
    /// and not consumed.
    pub fn into_parts(self) -> (parts: (P, S, Vec<u8>))
        ensures
            parts.0 == self.process(),
            parts.1 == self.stream(),
            parts.2@ == self.buffered(),
    {
        (self.proc, self.stream, self.buffer)
    }

    /// Puts the stream that `new_stream` makes of the session's stream in its
    /// place. The bytes read so far, the end-of-stream flag and the timeout
    /// stay as they are.
    pub fn swap_stream<F: FnOnce(S) -> R, R>(self, new_stream: F) -> (r: Result<
        Session<P, R>,
        Error,
    >)
        requires
            new_stream.requires((self.stream(),)),
        ensures
            r matches Ok(session) && new_stream.ensures((self.stream(),), session.stream())
                && session.process() == self.process() && session.buffered() == self.buffered()
                && session.at_eof() == self.at_eof() && session.timeout() == self.timeout(),
    {
        let stream = new_stream(self.stream);
        Ok(
            Session {
                proc: self.proc,
                stream,
                buffer: self.buffer,
                eof_seen: self.eof_seen,
                expect_timeout: self.expect_timeout,
            },
        )
    }

    /// Lets `logger` hear of every read and write of the session from now
    /// on. The bytes read so far stay with the session.
    pub fn with_log<W>(self, logger: W) -> (r: Result<Session<P, LoggedStream<S, W>>, Error>)
        ensures
            r matches Ok(session) && session.stream().stream == self.stream()
                && session.stream().logger == logger && session.process() == self.process()
                && session.buffered() == self.buffered() && session.at_eof() == self.at_eof()
                && session.timeout() == self.timeout(),
    {
        let wrap = |stream: S| -> (logged: LoggedStream<S, W>)
            ensures
                logged.stream == stream,
                logged.logger == logger,
            {
                LoggedStream::new(stream, logger)
            };
        self.swap_stream(wrap)
    }

    /// One step of handing the session to a person at the terminal: takes
    /// the event that came of the last action of `bridge` and answers with
    /// the next one. What the session had read and not consumed goes to the
    /// terminal first; the end of the child's stream is remembered.
    pub fn interact(&mut self, bridge: &mut Interact, event: Event) -> (action: Action)
        ensures
            final(self).same_setup(old(self)),
            reachable(old(bridge)@),
            reachable(final(bridge)@),
            (Outcome {
                state: final(bridge)@,
                action: action@,
                buffer: final(self).buffered(),
                eof: final(self).at_eof(),
            }) == transition(old(bridge)@, old(self).buffered(), old(self).at_eof(), event),
    {
        bridge.step(event, &mut self.buffer, &mut self.eof_seen)
    }

    /// Asks the needle once about the bytes at hand, without reading. A match
    /// is cut out of the buffer, and the bytes behind it stay.
    pub fn check<E: Expect + ?Sized>(&mut self, needle: &E) -> (r: Result<Option<Captures>, Error>)
        ensures
            final(self).same_setup(old(self)),
            final(self).at_eof() == old(self).at_eof(),
            final(self).buffered() == remainder(
                old(self).buffered(),
                needle.verdict(old(self).buffered(), old(self).at_eof()),
            ),
            match needle.verdict(old(self).buffered(), old(self).at_eof()) {
                Ok(Some(m)) => r matches Ok(Some(c)) && c.cuts(old(self).buffered(), m)
                    && c.joined() == old(self).buffered(),
                Ok(None) => r matches Ok(None),
                Err(e) => r matches Err(x) && x@ == e,
            },
    {
        match needle.expect(self.buffer.as_slice(), self.eof_seen) {
            Ok(Some(m)) => {
                let captures = Captures::new(self.buffer.as_slice(), m);
                self.buffer = slice_to_vec(captures.after.as_slice());
                Ok(Some(captures))
            },
            Ok(None) => Ok(None),
            Err(e) => Err(e),
        }
    }

    /// One decision of an expect that began `elapsed` milliseconds ago: asks
    /// the needle about the bytes at hand and says what follows.
    pub fn expect<E: Expect + ?Sized>(&mut self, needle: &E, elapsed: u64) -> (step: Step)
        ensures
            final(self).same_setup(old(self)),
            final(self).at_eof() == old(self).at_eof(),
            final(self).buffered() == remainder(
                old(self).buffered(),
                needle.verdict(old(self).buffered(), old(self).at_eof()),
            ),
            step@ == decide(
                old(self).buffered(),
                old(self).at_eof(),
                old(self).timeout(),
                needle.verdict(old(self).buffered(), old(self).at_eof()),
                elapsed,
            ),
            step matches Step::Matched(c) ==> c.joined() == old(self).buffered()
                && final(self).buffered() == c.after@,
    {
        match self.check(needle) {
            Ok(Some(captures)) => Step::Matched(captures),
            Ok(None) => {
                if self.eof_seen {
                    Step::Failed(Error::Eof { buffer: slice_to_vec(self.buffer.as_slice()) })
                } else {
                    Step::Read { window: self.poll_window(elapsed), limit: READ_LIMIT }
                }
            },
            Err(e) => Step::Failed(e),
        }
    }

    /// Takes up to `limit` bytes off the front of what was read and not
    /// consumed.
    pub fn take(&mut self, limit: usize) -> (bytes: Vec<u8>)
        ensures
            final(self).same_setup(old(self)),
            final(self).at_eof() == old(self).at_eof(),
            bytes@ + final(self).buffered() == old(self).buffered(),
            bytes@.len() == if limit < old(self).buffered().len() {
                limit as nat
            } else {
                old(self).buffered().len()
            },
    {
        let total = self.buffer.len();
        let n = if limit < total {
            limit
        } else {
            total
        };
        let rest = self.buffer.split_off(n);
        let mut bytes = rest;
        core::mem::swap(&mut self.buffer, &mut bytes);
        proof {
            let old_buffer = old(self).buffered();
            assert(old_buffer.subrange(0, n as int) + old_buffer.subrange(n as int, total as int)
                =~= old_buffer);
        }
        bytes
    }

    /// Takes the first line off the front of what was read and not consumed:
    /// the bytes up to the first line feed, and the line feed. Once the
    /// stream has ended, bytes that no line feed follows are a line too.
    /// `None` says that no line is there yet.
    pub fn take_line(&mut self) -> (line: Option<Vec<u8>>)
        ensures
            final(self).same_setup(old(self)),
            final(self).at_eof() == old(self).at_eof(),
            line_view(line) == first_line(old(self).buffered(), old(self).at_eof()),
            final(self).buffered() == old(self).buffered().skip(
                line_length(old(self).buffered(), old(self).at_eof()) as int,
            ),
    {
        let mut feed = Vec::new();
        feed.push(LINE_FEED);
        match find(feed.as_slice(), self.buffer.as_slice()) {
            Some(at) => Some(self.take(at + 1)),
            None => {
                if self.eof_seen && self.buffer.len() > 0 {
                    let total = self.buffer.len();
                    Some(self.take(total))
                } else {
                    None
                }
            },
        }
    }

    /// The poll window at `elapsed` milliseconds into an expect.
    pub fn poll_window(&self, elapsed: u64) -> (window: u64)
        ensures
            window == window_at(self.timeout(), elapsed),
    {
        match self.expect_timeout {
            None => POLL_WINDOW,
            Some(limit) => {
                if elapsed >= limit {
                    0
                } else if limit - elapsed < POLL_WINDOW {
                    limit - elapsed
                } else {
                    POLL_WINDOW
                }
            },
        }
    }

    /// Takes in what a read gave, `elapsed` milliseconds into an expect, and
    /// says whether the expect has failed by it.
    pub fn feed(&mut self, outcome: ReadOutcome, elapsed: u64) -> (failure: Option<Error>)
        ensures
            final(self).same_setup(old(self)),
            (final(self).buffered(), final(self).at_eof()) == absorbed(
                old(self).buffered(),
                old(self).at_eof(),
                outcome,
            ),
            failure_view(failure) == refusal(old(self).timeout(), outcome, elapsed),
    {
        match outcome {
            ReadOutcome::Bytes(mut bytes) => {
                if !self.eof_seen {
                    if bytes.len() == 0 {
                        self.eof_seen = true;
                    } else {
                        self.buffer.append(&mut bytes);
                    }
                }
                None
            },
            ReadOutcome::WouldBlock => {
                match self.expect_timeout {
                    Some(limit) => {
                        if elapsed >= limit {
                            Some(Error::ExpectTimeout)
                        } else {
                            None
                        }
                    },
                    None => None,
                }
            },
            ReadOutcome::Failed(cause) => Some(Error::Io(cause)),
        }
    }
}

impl<P: Process> Session<P, P::Stream> {
    /// Starts the program that `command` describes and opens a session on
    /// it.
    ///
    /// The platform is asked to start the program that `command` describes,
    /// and then to open a stream on the process that it started. Where both
    /// succeed, the session holds that process, as the opening left it, and
    /// that stream, and has read nothing yet. Where the start fails, its
    /// error is returned and no stream is asked for; where the opening
    /// fails, its error is returned and the process is let go.
    pub fn spawn(command: P::Command) -> (r: Result<Self, Error>)
        ensures
            match r {
                Ok(session) => {
                    &&& session.buffered() == Seq::<u8>::empty()
                    &&& !session.at_eof()
                    &&& session.timeout() == Some(DEFAULT_TIMEOUT)
                    &&& exists|started: &mut P|
                        call_ensures(P::spawn_command, (command,), Ok::<P, Error>(*started))
                            && *final(started) == session.process() && call_ensures(
                            P::open_stream,
                            (started,),
                            Ok::<P::Stream, Error>(session.stream()),
                        )
                },
                Err(e) => {
                    ||| call_ensures(P::spawn_command, (command,), Err::<P, Error>(e))
                    ||| exists|started: &mut P|
                        call_ensures(P::spawn_command, (command,), Ok::<P, Error>(*started))
                            && call_ensures(
                            P::open_stream,
                            (started,),
                            Err::<P::Stream, Error>(e),
                        )
                },
            },
    {
        let mut process = P::spawn_command(command)?;
        let stream = process.open_stream()?;
        Ok(Session::new(process, stream))
    }

    /// Starts the program that the command line `cmd` names and opens a
    /// session on it.
    ///
    /// The platform is asked to start the program that `cmd` names, and then
    /// to open a stream on the process that it started. Where both succeed,
    /// the session holds that process, as the opening left it, and that
    /// stream, and has read nothing yet. Where the start fails, its error is
    /// returned and no stream is asked for; where the opening fails, its
    /// error is returned and the process is let go.
    pub fn spawn_cmd(cmd: &str) -> (r: Result<Self, Error>)
        ensures
            match r {
                Ok(session) => {
                    &&& session.buffered() == Seq::<u8>::empty()
                    &&& !session.at_eof()
                    &&& session.timeout() == Some(DEFAULT_TIMEOUT)
                    &&& exists|started: &mut P|
                        call_ensures(P::spawn, (cmd,), Ok::<P, Error>(*started))
                            && *final(started) == session.process() && call_ensures(
                            P::open_stream,
                            (started,),
                            Ok::<P::Stream, Error>(session.stream()),
                        )
                },
                Err(e) => {
                    ||| call_ensures(P::spawn, (cmd,), Err::<P, Error>(e))
                    ||| exists|started: &mut P|
                        call_ensures(P::spawn, (cmd,), Ok::<P, Error>(*started)) && call_ensures(
                            P::open_stream,
                            (started,),
                            Err::<P::Stream, Error>(e),
                        )
                },
            },
    {
        let mut process = P::spawn(cmd)?;
        let stream = process.open_stream()?;
        Ok(Session::new(process, stream))
    }
}

/// A match loses and repeats nothing: the three parts that it cuts the
/// buffer into are, joined, the buffer as it was, and the part behind the
/// match is what the next expect begins with.
pub proof fn lemma_match_conserves(
    buffer: Seq<u8>,
    eof: bool,
    timeout: Option<u64>,
    m: Match,
    elapsed: u64,
)
    requires
        m.within(buffer.len()),
    ensures
        decide(buffer, eof, timeout, Ok(Some(m)), elapsed) matches StepView::Matched {
            before,
            matched,
            after,
        } && before + matched + after == buffer && remainder(buffer, Ok(Some(m))) == after,
{
    let (before, matched, after) = split_at_match(buffer, m);
    assert(before + matched + after =~= buffer);
}

/// A match that covers at least one byte is not seen again: what stays in
/// the buffer is shorter than the buffer was, and is made of the bytes
/// behind the match and of no others.
pub proof fn lemma_match_is_not_seen_again(buffer: Seq<u8>, m: Match)
    requires
        m.within(buffer.len()),
        m.start < m.end,
    ensures
        remainder(buffer, Ok(Some(m))).len() < buffer.len(),
        remainder(buffer, Ok(Some(m))).len() + m.end == buffer.len(),
        forall|i: int|
            0 <= i < remainder(buffer, Ok(Some(m))).len() ==> #[trigger] remainder(
                buffer,
                Ok(Some(m)),
            )[i] == buffer[m.end + i],
{
}

/// The empty literal matches at once and at the very start, whatever the
/// buffer holds: the engine asks for no read, and the buffer stays as it is.
pub proof fn lemma_empty_needle_matches_at_once(
    buffer: Seq<u8>,
    eof: bool,
    timeout: Option<u64>,
    elapsed: u64,
)
    ensures
        literal_verdict(Seq::<u8>::empty(), buffer) == Ok::<Option<Match>, ErrorView>(
            Some(Match { start: 0, end: 0 }),
        ),
        decide(buffer, eof, timeout, literal_verdict(Seq::<u8>::empty(), buffer), elapsed) == (
        StepView::Matched { before: Seq::empty(), matched: Seq::empty(), after: buffer }),
        remainder(buffer, literal_verdict(Seq::<u8>::empty(), buffer)) == buffer,
{
    lemma_empty_occurs_first(buffer);
    let m = Match { start: 0, end: 0 };
    let (before, matched, after) = split_at_match(buffer, m);
    assert(before =~= Seq::<u8>::empty());
    assert(matched =~= Seq::<u8>::empty());
    assert(after =~= buffer);
}

/// The engine reads no more than it must: it asks for a read only where the
/// needle finds nothing in what is at hand and the stream has not ended, and
/// then for one byte.
pub proof fn lemma_reads_only_when_needed(
    buffer: Seq<u8>,
    eof: bool,
    timeout: Option<u64>,
    verdict: Verdict,
    elapsed: u64,
)
    ensures
        decide(buffer, eof, timeout, verdict, elapsed) matches StepView::Read { window, limit }
            ==> verdict == Ok::<Option<Match>, ErrorView>(None) && !eof && limit == 1 && window
            <= POLL_WINDOW && remainder(buffer, verdict) == buffer,
        verdict == Ok::<Option<Match>, ErrorView>(None) && !eof ==> decide(
            buffer,
            eof,
            timeout,
            verdict,
            elapsed,
        ) is Read,
{
}

/// A timeout leaves the session as it was: the buffer and the end-of-stream
/// flag are untouched, so that an expect that is run again sees the same
/// bytes and whatever has come since, and with more time than has passed it
/// is not refused again.
pub proof fn lemma_timeout_leaves_state(
    buffer: Seq<u8>,
    eof: bool,
    timeout: Option<u64>,
    outcome: ReadOutcome,
    elapsed: u64,
    longer: Option<u64>,
    later: ReadOutcome,
)
    requires
        refusal(timeout, outcome, elapsed) == Some(ErrorView::ExpectTimeout),
        longer matches Some(limit) ==> elapsed < limit,
    ensures
        absorbed(buffer, eof, outcome) == (buffer, eof),
        timeout matches Some(limit) && limit <= elapsed,
        refusal(longer, outcome, elapsed) is None,
        absorbed(absorbed(buffer, eof, outcome).0, absorbed(buffer, eof, outcome).1, later)
            == absorbed(buffer, eof, later),
{
}

/// The end of the stream is final. No read adds a byte after it, and the
/// engine asks for none. The needle `Eof` then matches all that is left,
/// and leaves nothing: asked again, it matches no byte.
pub proof fn lemma_eof_is_final(
    buffer: Seq<u8>,
    timeout: Option<u64>,
    outcome: ReadOutcome,
    verdict: Verdict,
    elapsed: u64,
)
    requires
        buffer.len() <= usize::MAX,
    ensures
        absorbed(buffer, true, outcome) == (buffer, true),
        !(decide(buffer, true, timeout, verdict, elapsed) is Read),
        decide(buffer, true, timeout, Eof.verdict(buffer, true), elapsed) == (StepView::Matched {
            before: Seq::empty(),
            matched: buffer,
            after: Seq::empty(),
        }),
        remainder(buffer, Eof.verdict(buffer, true)) == Seq::<u8>::empty(),
        decide(Seq::empty(), true, timeout, Eof.verdict(Seq::empty(), true), elapsed) == (
        StepView::Matched { before: Seq::empty(), matched: Seq::empty(), after: Seq::empty() }),
{
    let m = Match { start: 0, end: buffer.len() as usize };
    let (before, matched, after) = split_at_match(buffer, m);
    assert(before =~= Seq::<u8>::empty());
    assert(matched =~= buffer);
    assert(after =~= Seq::<u8>::empty());
    let none = Seq::<u8>::empty();
    let (b0, m0, a0) = split_at_match(none, Match { start: 0, end: 0 });
    assert(b0 =~= none);
    assert(m0 =~= none);
    assert(a0 =~= none);
}

/// The bytes that a read which gave `outcome` adds to the buffer: those that
/// were read, unless the stream had ended before.
pub open spec fn accepted(eof: bool, outcome: ReadOutcome) -> Seq<u8> {
    match outcome {
        ReadOutcome::Bytes(bytes) => if eof {
            Seq::empty()
        } else {
            bytes@
        },
        _ => Seq::empty(),
    }
}

/// One thing that happens to the buffer of a session: a read is taken in,
/// or a match is cut out.
pub enum Change {
    Read(ReadOutcome),
    Matched(Match),
}

/// What a run of changes has made of a session.
pub struct Course {
    /// The bytes that reads have added, in the order of the reads.
    pub taken_in: Seq<u8>,
    /// The bytes that matches have handed out, in front of them or in them,
    /// in the order of the matches.
    pub handed_out: Seq<u8>,
    /// The bytes in the buffer.
    pub buffer: Seq<u8>,
    /// Whether the stream has been seen to end.
    pub eof: bool,
}

/// The course of a session that has read nothing, after `changes`. A match
/// that does not lie inside the buffer of its time changes nothing.
pub open spec fn course(changes: Seq<Change>) -> Course
    decreases changes.len(),
{
    if changes.len() == 0 {
        Course { taken_in: Seq::empty(), handed_out: Seq::empty(), buffer: Seq::empty(), eof: false }
    } else {
        let so_far = course(changes.drop_last());
        match changes.last() {
            Change::Read(outcome) => Course {
                taken_in: so_far.taken_in + accepted(so_far.eof, outcome),
                buffer: absorbed(so_far.buffer, so_far.eof, outcome).0,
                eof: absorbed(so_far.buffer, so_far.eof, outcome).1,
                ..so_far
            },
            Change::Matched(m) => if m.within(so_far.buffer.len()) {
                Course {
                    handed_out: so_far.handed_out + so_far.buffer.take(m.end as int),
                    buffer: remainder(so_far.buffer, Ok(Some(m))),
                    ..so_far
                }
            } else {
                so_far
            },
        }
    }
}

/// Over any run of reads and matches, every byte that was read is, once and
/// in its place, among those that the matches have handed out or in the
/// buffer: none is lost and none comes twice. And the end of the stream,
/// once seen, stays, and no byte is read after it.
pub proof fn lemma_every_byte_once(changes: Seq<Change>)
    ensures
        course(changes).handed_out + course(changes).buffer == course(changes).taken_in,
        changes.len() > 0 && course(changes.drop_last()).eof ==> course(changes).eof
            && course(changes).taken_in == course(changes.drop_last()).taken_in,
    decreases changes.len(),
{
    if changes.len() > 0 {
        lemma_every_byte_once(changes.drop_last());
        let so_far = course(changes.drop_last());
        let now = course(changes);
        match changes.last() {
            Change::Read(outcome) => {
                let more = accepted(so_far.eof, outcome);
                assert(now.buffer =~= so_far.buffer + more);
                assert(now.handed_out + now.buffer =~= (so_far.handed_out + so_far.buffer)
                    + more);
                if so_far.eof {
                    assert(now.taken_in =~= so_far.taken_in);
                }
            },
            Change::Matched(m) => {
                if m.within(so_far.buffer.len()) {
                    assert(so_far.buffer.take(m.end as int) + now.buffer =~= so_far.buffer);
                    assert(now.handed_out + now.buffer =~= so_far.handed_out + (
                    so_far.buffer.take(m.end as int) + now.buffer));
                }
            },
        }
    } else {
        assert(course(changes).handed_out + course(changes).buffer =~= course(changes).taken_in);
    }
}

} // verus!
