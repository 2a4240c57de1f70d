use expectrl::error::Error;
use expectrl::expect::{match_of, Expect, Match};
use expectrl::{Eof, NBytes, Regex};
use expectrl::search::find;

#[test]
fn test_regex() {
    assert_eq!(
        Regex("[0-9]+").expect(b"+012345", false).unwrap(),
        Some(Match::new(1, 7))
    );
    // we use a first left match
    assert_eq!(
        Regex(r"\w+").expect(b"What's Up Boys", false).unwrap(),
        Some(Match::new(0, 4))
    );
}

#[test]
fn test_eof() {
    assert_eq!(Eof.expect(b"qwe", true).unwrap(), Some(Match::new(0, 3)));
    assert_eq!(Eof.expect(b"qwe", false).unwrap(), None);
}

#[test]
fn test_n_bytes() {
    assert_eq!(
        NBytes(1).expect(b"qwe", false).unwrap(),
        Some(Match::new(0, 1))
    );
    assert_eq!(
        NBytes(0).expect(b"qwe", false).unwrap(),
        Some(Match::new(0, 0))
    );
    assert_eq!(NBytes(10).expect(b"qwe", false).unwrap(), None);
}

#[test]
fn test_str() {
    assert_eq!(
        "wer".expect(b"qwerty", false).unwrap(),
        Some(Match::new(1, 4))
    );
    assert_eq!("123".expect(b"qwerty", false).unwrap(), None);
    assert_eq!("".expect(b"qwerty", false).unwrap(), Some(Match::new(0, 0)));
}

#[test]
fn test_bytes() {
    assert_eq!(
        b"wer".expect(b"qwerty", false).unwrap(),
        Some(Match::new(1, 4))
    );
    assert_eq!(b"123".expect(b"qwerty", false).unwrap(), None);
    assert_eq!(
        b"".expect(b"qwerty", false).unwrap(),
        Some(Match::new(0, 0))
    );
}

#[test]
fn test_bytes_ref() {
    assert_eq!(
        (&[b'q', b'w', b'e']).expect(b"qwerty", false).unwrap(),
        Some(Match::new(0, 3))
    );
    assert_eq!(
        (&[b'1', b'2', b'3']).expect(b"qwerty", false).unwrap(),
        None
    );
    assert_eq!(
        (&[]).expect(b"qwerty", false).unwrap(),
        Some(Match::new(0, 0))
    );
}

#[test]
fn regex_reports_a_bad_pattern() {
    assert_eq!(Regex("(").expect(b"anything", false), Err(Error::RegexParsing));
    assert_eq!(Regex("[a-").expect(b"", true), Err(Error::RegexParsing));
}

#[test]
fn regex_is_leftmost_and_bytewise() {
    assert_eq!(Regex("b+").expect(b"abbb abb", false).unwrap(), Some(Match::new(1, 4)));
    assert_eq!(Regex("b+").expect(b"aaa", false).unwrap(), None);
    assert_eq!(
        Regex(String::from(r"(?-u)\xff")).expect(&[0x00, 0xff, 0x01], false).unwrap(),
        Some(Match::new(1, 2))
    );
    assert_eq!(Regex("lo.*").expect(b"Hello", false).unwrap(), Some(Match::new(3, 5)));
    assert_eq!(Regex("x*").expect(b"abc", true).unwrap(), Some(Match::new(0, 0)));
}

#[test]
fn literal_is_the_first_occurrence() {
    assert_eq!("ab".expect(b"xxabxxab", false).unwrap(), Some(Match::new(2, 4)));
    assert_eq!("aab".expect(b"aaab", false).unwrap(), Some(Match::new(1, 4)));
    assert_eq!("ty".expect(b"qwerty", false).unwrap(), Some(Match::new(4, 6)));
    assert_eq!("qwerty".expect(b"qwerty", false).unwrap(), Some(Match::new(0, 6)));
    assert_eq!("qwertyu".expect(b"qwerty", false).unwrap(), None);
    assert_eq!("tyu".expect(b"qwerty", true).unwrap(), None);
    assert_eq!(String::from("wer").expect(b"qwerty", false).unwrap(), Some(Match::new(1, 4)));
    assert_eq!(vec![b'e', b'r'].expect(b"qwerty", false).unwrap(), Some(Match::new(2, 4)));
    assert_eq!("é".expect("café".as_bytes(), false).unwrap(), Some(Match::new(3, 5)));
}

#[test]
fn the_empty_literal_matches_at_the_start() {
    assert_eq!("".expect(b"", false).unwrap(), Some(Match::new(0, 0)));
    assert_eq!("".expect(b"", true).unwrap(), Some(Match::new(0, 0)));
    assert_eq!(b"".expect(b"x", false).unwrap(), Some(Match::new(0, 0)));
    assert_eq!(Vec::<u8>::new().expect(b"xyz", true).unwrap(), Some(Match::new(0, 0)));
}

#[test]
fn n_bytes_needs_one_byte_more() {
    assert_eq!(NBytes(3).expect(b"qwe", false).unwrap(), None);
    assert_eq!(NBytes(3).expect(b"qwe", true).unwrap(), None);
    assert_eq!(NBytes(2).expect(b"qwe", false).unwrap(), Some(Match::new(0, 2)));
    assert_eq!(NBytes(0).expect(b"", false).unwrap(), None);
    assert_eq!(NBytes(3).count(), 3);
}

#[test]
fn eof_matches_all_that_is_left() {
    assert_eq!(Eof.expect(b"", true).unwrap(), Some(Match::new(0, 0)));
    assert_eq!(Eof.expect(b"", false).unwrap(), None);
    let m = Eof.expect(b"qwerty", true).unwrap().unwrap();
    assert_eq!(m.start(), 0);
    assert_eq!(m.end(), 6);
}

#[test]
fn needles_answer_the_same_when_asked_again() {
    let buf = b"one two three";
    assert_eq!("two".expect(buf, false), "two".expect(buf, false));
    assert_eq!(Regex("t[a-z]+").expect(buf, false), Regex("t[a-z]+").expect(buf, false));
    assert_eq!(NBytes(4).expect(buf, true), NBytes(4).expect(buf, true));
    assert_eq!(Eof.expect(buf, true), Eof.expect(buf, true));
    assert_eq!((&"two").expect(buf, false).unwrap(), Some(Match::new(4, 7)));
}

#[test]
fn find_names_the_leftmost_offset() {
    assert_eq!(find(b"wer", b"qwerty"), Some(1));
    assert_eq!(find(b"", b""), Some(0));
    assert_eq!(find(b"a", b""), None);
    assert_eq!(find(b"aa", b"aaa"), Some(0));
    assert_eq!(find(b"\n", b"one\ntwo\n"), Some(3));
    assert_eq!(find(b"ab", b"aab"), Some(1));
}

#[test]
fn match_of_keeps_the_bounds() {
    assert_eq!(match_of(Some((2, 5))), Some(Match::new(2, 5)));
    assert_eq!(match_of(None), None);
}
