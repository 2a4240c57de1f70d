//! What a successful `expect` hands back.

use vstd::prelude::*;
use vstd::slice::{slice_subrange, slice_to_vec};
use crate::expect::Match;

verus! {

/// The buffer as it was when a needle matched, cut at the match: the bytes
/// before it, the bytes it covers, and the bytes after it.
#[derive(Debug, Clone, PartialEq, Eq)]
pub struct Captures {
    /// The bytes in front of the match.
    pub before: Vec<u8>,
    /// The bytes that the match covers.
    pub matched: Vec<u8>,
    /// The bytes behind the match, which stay with the session.
    pub after: Vec<u8>,
}

/// The three parts of `buf` cut at `m`, as sequences.
pub open spec fn split_at_match(buf: Seq<u8>, m: Match) -> (Seq<u8>, Seq<u8>, Seq<u8>) {
    (
        buf.subrange(0, m.start as int),
        buf.subrange(m.start as int, m.end as int),
        buf.subrange(m.end as int, buf.len() as int),
    )
}

impl Captures {
    /// Whether these are the parts of `buf` cut at `m`.
    pub open spec fn cuts(&self, buf: Seq<u8>, m: Match) -> bool {
        (self.before@, self.matched@, self.after@) == split_at_match(buf, m)
    }

    /// The bytes of all three parts, in order.
    pub open spec fn joined(&self) -> Seq<u8> {
        self.before@ + self.matched@ + self.after@
    }

    /// Cuts `buf` at `m`.
    pub fn new(buf: &[u8], m: Match) -> (c: Captures)
        requires
            m.within(buf@.len()),
        ensures
            c.cuts(buf@, m),
            c.joined() == buf@,
    {
        let total = buf.len();
        let before = slice_to_vec(slice_subrange(buf, 0, m.start()));
        let matched = slice_to_vec(slice_subrange(buf, m.start(), m.end()));
        let after = slice_to_vec(slice_subrange(buf, m.end(), total));
        proof {
            lemma_split_joins(buf@, m);
        }
        Captures { before, matched, after }
    }

    /// The bytes in front of the match.
    pub fn before_match(&self) -> (bytes: &[u8])
        ensures
            bytes@ == self.before@,
    {
        self.before.as_slice()
    }

    /// The bytes that the match covers.
    pub fn found_match(&self) -> (bytes: &[u8])
        ensures
            bytes@ == self.matched@,
    {
        self.matched.as_slice()
    }

    /// The bytes behind the match.
    pub fn after_match(&self) -> (bytes: &[u8])
        ensures
            bytes@ == self.after@,
    {
        self.after.as_slice()
    }
}

/// Cutting a buffer at a match inside it loses and repeats nothing: the three
/// parts, joined again, are the buffer.
pub proof fn lemma_split_joins(buf: Seq<u8>, m: Match)
    requires
        m.within(buf.len()),
    ensures
        ({
            let (before, matched, after) = split_at_match(buf, m);
            before + matched + after == buf
        }),
{
    let (before, matched, after) = split_at_match(buf, m);
    assert(before + matched + after =~= buf);
}

} // verus!
