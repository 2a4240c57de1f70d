use expectrl::error::{Cause, Error};
use expectrl::expect::{Eof, Expect, Match, NBytes, Regex};
use expectrl::process::Process;
use expectrl::captures::Captures;
use expectrl::session::{Session, Step, DEFAULT_TIMEOUT, POLL_WINDOW};
use expectrl::stream::ReadOutcome;

/// A stream that hands out what a child would have written, a chunk per read.
struct Script {
    chunks: Vec<ReadOutcome>,
    next: usize,
}

impl Script {
    fn new(chunks: Vec<ReadOutcome>) -> Self {
        Script { chunks, next: 0 }
    }

    fn bytewise(text: &[u8]) -> Self {
        let mut chunks = Vec::new();
        for b in text {
            chunks.push(ReadOutcome::Bytes(vec![*b]));
        }
        Script::new(chunks)
    }

    fn read(&mut self) -> ReadOutcome {
        if self.next < self.chunks.len() {
            let taken = std::mem::replace(&mut self.chunks[self.next], ReadOutcome::WouldBlock);
            self.next += 1;
            taken
        } else {
            ReadOutcome::WouldBlock
        }
    }
}

/// Runs an expect to its end; each poll that finds nothing costs its window.
fn run<E: Expect>(
    session: &mut Session<(), ()>,
    script: &mut Script,
    needle: E,
) -> Result<Captures, Error> {
    let mut elapsed: u64 = 0;
    loop {
        match session.expect(&needle, elapsed) {
            Step::Matched(c) => return Ok(c),
            Step::Failed(e) => return Err(e),
            Step::Read { window, limit } => {
                assert_eq!(limit, 1);
                let outcome = script.read();
                if let ReadOutcome::WouldBlock = outcome {
                    elapsed += window.max(1);
                }
                if let Some(e) = session.feed(outcome, elapsed) {
                    return Err(e);
                }
            }
        }
    }
}

#[test]
fn expect_expect_str() {
    let mut session = Session::new((), ());
    let mut script = Script::bytewise(b"Hello World\r\n");
    let m = run(&mut session, &mut script, "Hello World").unwrap();
    assert_eq!(m.found_match(), b"Hello World");
    assert_eq!(m.before_match(), b"");
}

#[test]
fn expect_expect_regex() {
    let mut session = Session::new((), ());
    let mut script = Script::bytewise(b"Hello World\r\n");
    let m = run(&mut session, &mut script, Regex("lo.*")).unwrap();
    assert_eq!(m.before_match(), b"Hel");
    assert_eq!(m.found_match(), b"lo");
}

#[test]
fn expect_expect_n_bytes() {
    let mut session = Session::new((), ());
    let mut script = Script::bytewise(b"Hello World\r\n");
    let m = run(&mut session, &mut script, NBytes(3)).unwrap();
    assert_eq!(m.found_match(), b"Hel");
    assert_eq!(m.before_match(), b"");
}

#[test]
fn expect_expect_eof() {
    let mut session = Session::new((), ());
    session.set_expect_timeout(None);
    let mut script = Script::new(vec![
        ReadOutcome::Bytes(b"'Hello World'\r\n".to_vec()),
        ReadOutcome::WouldBlock,
        ReadOutcome::Bytes(Vec::new()),
    ]);
    let m = run(&mut session, &mut script, Eof).unwrap();
    assert_eq!(m.found_match(), b"'Hello World'\r\n");
    assert_eq!(m.before_match(), b"");
    assert!(session.is_eof());
}

#[test]
fn expect_expect_eof_timeout() {
    let mut p = Session::new((), ());
    p.set_expect_timeout(Some(100));
    let mut script = Script::new(Vec::new());
    match run(&mut p, &mut script, Eof) {
        Err(Error::ExpectTimeout) => {}
        r => panic!("should raise TimeOut {:?}", r),
    }
}

#[test]
fn expect_read_after_expect_str() {
    let mut session = Session::new((), ());
    let mut script = Script::new(vec![ReadOutcome::Bytes(b"Hello World\r\n".to_vec())]);
    run(&mut session, &mut script, "Hello").unwrap();

    let buf = session.take(6);
    assert_eq!(&buf, b" World");
    assert_eq!(session.buffer(), b"\r\n");
}

struct Fake {
    line: String,
}

impl Process for Fake {
    type Command = Vec<String>;
    type Stream = u8;

    fn spawn(cmd: &str) -> Result<Self, Error> {
        if cmd.is_empty() {
            Err(Error::Spawn(Cause { code: Some(2), message: "spawn".to_string() }))
        } else {
            Ok(Fake { line: cmd.to_string() })
        }
    }

    fn spawn_command(command: Vec<String>) -> Result<Self, Error> {
        Ok(Fake { line: command.join(" ") })
    }

    fn open_stream(&mut self) -> Result<u8, Error> {
        if self.line == "no stream" {
            Err(Error::Io(Cause { code: Some(5), message: "open".to_string() }))
        } else {
            Ok(7)
        }
    }
}

#[test]
fn spawn_gives_a_fresh_session() {
    let session: Session<Fake, u8> = Session::spawn(vec!["cat".to_string(), "-".to_string()]).unwrap();
    assert_eq!(session.get_process().line, "cat -");
    assert_eq!(*session.get_stream(), 7);
    assert_eq!(session.buffer(), b"");
    assert!(!session.is_eof());
    assert_eq!(session.expect_timeout(), Some(DEFAULT_TIMEOUT));
    let session: Session<Fake, u8> = Session::spawn_cmd("cat").unwrap();
    assert_eq!(session.get_process().line, "cat");
}

#[test]
fn spawn_hands_on_the_failure() {
    match Session::<Fake, u8>::spawn_cmd("") {
        Err(Error::Spawn(cause)) => assert_eq!(cause.code, Some(2)),
        _ => panic!("the spawn should have failed"),
    }
    match Session::<Fake, u8>::spawn_cmd("no stream") {
        Err(Error::Io(cause)) => assert_eq!(cause.code, Some(5)),
        _ => panic!("the stream should not have opened"),
    }
}

#[test]
fn with_log_keeps_the_buffer() {
    let mut session = Session::new(1u8, 2u8);
    assert!(session.feed(ReadOutcome::Bytes(b"left over".to_vec()), 0).is_none());
    session.set_expect_timeout(Some(55));
    let logged = session.with_log("sink").unwrap();
    assert_eq!(logged.buffer(), b"left over");
    assert_eq!(logged.expect_timeout(), Some(55));
    assert_eq!(logged.get_stream().stream, 2);
    assert_eq!(logged.get_stream().logger, "sink");
    assert_eq!(*logged.get_process(), 1);
}

struct Twice;

impl Expect for Twice {
    fn expect(&self, buf: &[u8], _eof: bool) -> Result<Option<Match>, Error> {
        if buf.len() >= 2 && buf[0] == buf[1] {
            Ok(Some(Match::new(0, 2)))
        } else {
            Ok(None)
        }
    }
}

#[test]
fn a_needle_of_the_caller() {
    let mut session = Session::new((), ());
    assert!(session.feed(ReadOutcome::Bytes(b"aab".to_vec()), 0).is_none());
    let found = session.check(&Twice).unwrap().unwrap();
    assert_eq!(found.found_match(), b"aa");
    assert_eq!(session.buffer(), b"b");
    assert!(session.check(&Twice).unwrap().is_none());
    assert_eq!(POLL_WINDOW, 10);
}

fn fed(text: &[u8]) -> Session<(), ()> {
    let mut session = Session::new((), ());
    assert!(session.feed(ReadOutcome::Bytes(text.to_vec()), 0).is_none());
    session
}

#[test]
fn a_match_cuts_the_buffer_in_three() {
    let mut session = fed(b"one two three");
    match session.expect("two", 0) {
        Step::Matched(c) => {
            assert_eq!(c.before, b"one ");
            assert_eq!(c.matched, b"two");
            assert_eq!(c.after, b" three");
            let mut joined = c.before.clone();
            joined.extend_from_slice(&c.matched);
            joined.extend_from_slice(&c.after);
            assert_eq!(joined, b"one two three");
            assert_eq!(c.after_match(), session.buffer());
        }
        other => panic!("no match: {:?}", other),
    }
    assert_eq!(session.buffer(), b" three");
    let direct = Captures::new(b"one two three", Match::new(4, 7));
    assert_eq!(direct.before_match(), b"one ");
    assert_eq!(direct.found_match(), b"two");
    assert_eq!(direct.after_match(), b" three");
}

#[test]
fn what_matched_is_not_matched_again() {
    let mut session = fed(b"abcabc");
    let first = session.check(&"abc").unwrap().unwrap();
    assert_eq!(first.before, b"");
    assert_eq!(session.buffer(), b"abc");
    let second = session.check(&"abc").unwrap().unwrap();
    assert_eq!(second.matched, b"abc");
    assert_eq!(session.buffer(), b"");
    assert!(session.check(&"abc").unwrap().is_none());
}

#[test]
fn the_empty_needle_matches_without_a_read() {
    let mut session = Session::new((), ());
    for _ in 0..3 {
        match session.expect(&"", 0) {
            Step::Matched(c) => {
                assert_eq!(c.before, b"");
                assert_eq!(c.matched, b"");
                assert_eq!(c.after, b"");
            }
            other => panic!("the empty needle did not match: {:?}", other),
        }
    }
    let mut session = fed(b"data");
    match session.expect(&"", 7) {
        Step::Matched(c) => assert_eq!(c.after, b"data"),
        other => panic!("the empty needle did not match: {:?}", other),
    }
    assert_eq!(session.buffer(), b"data");
}

#[test]
fn a_timeout_leaves_the_session_as_it_was() {
    let mut session = fed(b"Hello Wor");
    session.set_expect_timeout(Some(100));
    match session.expect(&"World", 0) {
        Step::Read { window, limit } => assert_eq!((window, limit), (10, 1)),
        other => panic!("should ask for a read: {:?}", other),
    }
    assert!(session.feed(ReadOutcome::WouldBlock, 99).is_none());
    assert_eq!(session.feed(ReadOutcome::WouldBlock, 100), Some(Error::ExpectTimeout));
    assert_eq!(session.buffer(), b"Hello Wor");
    assert!(!session.is_eof());
    session.set_expect_timeout(Some(1000));
    assert!(session.feed(ReadOutcome::WouldBlock, 100).is_none());
    assert!(session.feed(ReadOutcome::Bytes(b"ld!".to_vec()), 150).is_none());
    match session.expect(&"World", 150) {
        Step::Matched(c) => {
            assert_eq!(c.before, b"Hello ");
            assert_eq!(c.after, b"!");
        }
        other => panic!("no match: {:?}", other),
    }
}

#[test]
fn no_timeout_lets_an_expect_wait_for_ever() {
    let mut session = Session::new((), ());
    session.set_expect_timeout(None);
    assert_eq!(session.expect_timeout(), None);
    assert!(session.feed(ReadOutcome::WouldBlock, u64::MAX).is_none());
    assert_eq!(session.poll_window(u64::MAX), POLL_WINDOW);
}

#[test]
fn the_poll_window_ends_at_the_deadline() {
    let mut session = Session::new((), ());
    session.set_expect_timeout(Some(25));
    assert_eq!(session.poll_window(0), 10);
    assert_eq!(session.poll_window(15), 10);
    assert_eq!(session.poll_window(16), 9);
    assert_eq!(session.poll_window(24), 1);
    assert_eq!(session.poll_window(25), 0);
    assert_eq!(session.poll_window(26), 0);
}

#[test]
fn the_end_of_the_stream_is_final() {
    let mut session = fed(b"tail");
    assert!(session.feed(ReadOutcome::Bytes(Vec::new()), 0).is_none());
    assert!(session.is_eof());
    assert!(session.feed(ReadOutcome::Bytes(b"more".to_vec()), 0).is_none());
    assert_eq!(session.buffer(), b"tail");
    assert!(session.is_eof());
    match session.expect(&"absent", 0) {
        Step::Failed(Error::Eof { buffer }) => assert_eq!(buffer, b"tail"),
        other => panic!("should fail at the end of the stream: {:?}", other),
    }
    assert_eq!(session.buffer(), b"tail");
    match session.expect(&Eof, 0) {
        Step::Matched(c) => {
            assert_eq!(c.before, b"");
            assert_eq!(c.matched, b"tail");
            assert_eq!(c.after, b"");
        }
        other => panic!("no match: {:?}", other),
    }
    match session.expect(&Eof, 0) {
        Step::Matched(c) => assert_eq!(c.matched, b""),
        other => panic!("no match: {:?}", other),
    }
    assert!(session.is_eof());
}

#[test]
fn a_failed_read_ends_the_expect_and_spares_the_session() {
    let mut session = fed(b"kept");
    let cause = Cause::new(Some(13), "read");
    assert_eq!(
        session.feed(ReadOutcome::Failed(cause.clone()), 1),
        Some(Error::Io(cause))
    );
    assert_eq!(session.buffer(), b"kept");
    assert!(!session.is_eof());
    assert!(session.check(&"kept").unwrap().is_some());
}

#[test]
fn a_bad_pattern_fails_the_expect() {
    let mut session = fed(b"text");
    match session.expect(&Regex("("), 0) {
        Step::Failed(Error::RegexParsing) => {}
        other => panic!("should refuse the pattern: {:?}", other),
    }
    assert_eq!(session.check(&Regex("(")), Err(Error::RegexParsing));
    assert_eq!(session.buffer(), b"text");
}

#[test]
fn check_does_not_wait() {
    let mut session = fed(b"Hello");
    assert_eq!(session.check(&"World"), Ok(None));
    assert_eq!(session.check(&Eof), Ok(None));
    assert_eq!(session.check(&NBytes(5)), Ok(None));
    let found = session.check(&NBytes(4)).unwrap().unwrap();
    assert_eq!(found.matched, b"Hell");
    assert_eq!(session.buffer(), b"o");
}

#[test]
fn take_reads_what_was_left_over() {
    let mut session = fed(b"Hello World\r\n");
    let mut script = Script::new(Vec::new());
    run(&mut session, &mut script, "Hello").unwrap();
    assert_eq!(session.take(6), b" World");
    assert_eq!(session.take(100), b"\r\n");
    assert_eq!(session.take(1), b"");
    assert_eq!(session.buffer(), b"");
}

#[test]
fn take_line_cuts_at_the_line_feed() {
    let mut session = fed(b"one\r\ntwo\nthr");
    assert_eq!(session.take_line(), Some(b"one\r\n".to_vec()));
    assert_eq!(session.take_line(), Some(b"two\n".to_vec()));
    assert_eq!(session.take_line(), None);
    assert_eq!(session.buffer(), b"thr");
    assert!(session.feed(ReadOutcome::Bytes(Vec::new()), 0).is_none());
    assert_eq!(session.take_line(), Some(b"thr".to_vec()));
    assert_eq!(session.take_line(), None);
}
