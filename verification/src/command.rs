//! Splitting a command line into the program and its arguments.
//!
//! A word is a run of bytes that holds no space and no quote, or a quoted
//! string: a quote, at least one byte that is not that quote, and the same
//! quote again. A quoted string keeps its quotes. Spaces, and quotes that
//! open no quoted string, part the words and belong to none.

use vstd::prelude::*;
use vstd::slice::{slice_subrange, slice_to_vec};
use crate::search::{find, first_occurrence, lemma_first_occurrence_found, views};

verus! {

/// The space character.
pub const SPACE: u8 = 0x20;

/// The double quote.
pub const DOUBLE_QUOTE: u8 = 0x22;

/// The single quote.
pub const SINGLE_QUOTE: u8 = 0x27;

/// Whether a byte is a quote.
pub open spec fn is_quote(b: u8) -> bool {
    b == DOUBLE_QUOTE || b == SINGLE_QUOTE
}

/// Whether a byte can stand in a word outside quotes.
pub open spec fn is_plain(b: u8) -> bool {
    b != SPACE && !is_quote(b)
}

/// The number of plain bytes that follow each other from offset `at` on.
pub open spec fn plain_run(line: Seq<u8>, at: int) -> nat
    decreases line.len() - at,
{
    if 0 <= at < line.len() && is_plain(line[at]) {
        1 + plain_run(line, at + 1)
    } else {
        0
    }
}

/// The length of the quoted string that the quote at offset `at` opens: the
/// nearest quote of the same kind closes it, if it is not the very next
/// byte. 0 where the quote opens none.
pub open spec fn quoted_len(line: Seq<u8>, at: int) -> nat {
    match first_occurrence(seq![line[at]], line.skip(at + 1)) {
        Some(inside) => if inside > 0 {
            (inside + 2) as nat
        } else {
            0
        },
        None => 0,
    }
}

/// The length of the word that begins at offset `at`; 0 where none does.
pub open spec fn word_len(line: Seq<u8>, at: int) -> nat {
    if at < 0 || at >= line.len() {
        0
    } else if is_quote(line[at]) {
        quoted_len(line, at)
    } else {
        plain_run(line, at)
    }
}

/// The words of `line` from offset `at` on, in their order.
pub open spec fn words_from(line: Seq<u8>, at: int) -> Seq<Seq<u8>>
    decreases line.len() - at,
    via words_from_ends
{
    if at < 0 || at >= line.len() {
        Seq::empty()
    } else if word_len(line, at) == 0 {
        words_from(line, at + 1)
    } else {
        seq![line.subrange(at, at + word_len(line, at))] + words_from(
            line,
            at + word_len(line, at),
        )
    }
}

#[via_fn]
proof fn words_from_ends(line: Seq<u8>, at: int) {
    lemma_word_fits(line, at);
}

/// The words of a command line: the program first, then its arguments.
pub open spec fn words(line: Seq<u8>) -> Seq<Seq<u8>> {
    words_from(line, 0)
}

/// A word lies inside the line.
pub proof fn lemma_word_fits(line: Seq<u8>, at: int)
    ensures
        at + word_len(line, at) <= line.len() || word_len(line, at) == 0,
    decreases line.len() - at,
{
    if 0 <= at < line.len() {
        if is_quote(line[at]) {
            let rest = line.skip(at + 1);
            if first_occurrence(seq![line[at]], rest) is Some {
                lemma_first_occurrence_found(seq![line[at]], rest);
            }
        } else {
            lemma_plain_run_fits(line, at);
        }
    }
}

/// A run of plain bytes lies inside the line.
pub proof fn lemma_plain_run_fits(line: Seq<u8>, at: int)
    ensures
        plain_run(line, at) == 0 || at + plain_run(line, at) <= line.len(),
    decreases line.len() - at,
{
    if 0 <= at < line.len() && is_plain(line[at]) {
        lemma_plain_run_fits(line, at + 1);
    }
}

/// The length of the run of plain bytes from offset `at` on.
fn plain_run_at(line: &[u8], at: usize) -> (n: usize)
    requires
        at <= line@.len(),
    ensures
        n == plain_run(line@, at as int),
        at + n <= line@.len(),
{
    let total = line.len();
    let mut end = at;
    while end < total && line[end] != SPACE && line[end] != DOUBLE_QUOTE && line[end]
        != SINGLE_QUOTE
        invariant
            total == line@.len(),
            at <= end <= total,
            plain_run(line@, at as int) == (end - at) + plain_run(line@, end as int),
        decreases total - end,
    {
        end += 1;
    }
    end - at
}

/// The length of the quoted string that the quote at offset `at` opens.
fn quoted_len_at(line: &[u8], at: usize) -> (n: usize)
    requires
        at < line@.len(),
    ensures
        n == quoted_len(line@, at as int),
        n == 0 || at + n <= line@.len(),
{
    let total = line.len();
    let mut quote = Vec::new();
    quote.push(line[at]);
    let rest = slice_subrange(line, at + 1, total);
    proof {
        assert(rest@ =~= line@.skip(at + 1));
        assert(quote@ =~= seq![line@[at as int]]);
    }
    match find(quote.as_slice(), rest) {
        Some(inside) => {
            if inside > 0 {
                inside + 2
            } else {
                0
            }
        },
        None => 0,
    }
}

/// Splits a command line into its words.
pub fn split(line: &[u8]) -> (parts: Vec<Vec<u8>>)
    ensures
        views(parts@) == words(line@),
{
    let total = line.len();
    let mut parts: Vec<Vec<u8>> = Vec::new();
    let mut at: usize = 0;
    while at < total
        invariant
            total == line@.len(),
            at <= total,
            views(parts@) + words_from(line@, at as int) == words(line@),
        decreases total - at,
    {
        let n = if line[at] == DOUBLE_QUOTE || line[at] == SINGLE_QUOTE {
            quoted_len_at(line, at)
        } else {
            plain_run_at(line, at)
        };
        if n == 0 {
            at += 1;
        } else {
            let word = slice_to_vec(slice_subrange(line, at, at + n));
            proof {
                let before = views(parts@);
                let after = views(parts@.push(word));
                assert(after =~= before + seq![word@]);
                assert(before + (seq![word@] + words_from(line@, at + n)) =~= (before
                    + seq![word@]) + words_from(line@, at + n));
            }
            parts.push(word);
            at += n;
        }
    }
    proof {
        assert(views(parts@) + Seq::<Seq<u8>>::empty() =~= views(parts@));
    }
    parts
}

/// The number of bytes in all of `parts`.
pub open spec fn words_total(parts: Seq<Seq<u8>>) -> nat
    decreases parts.len(),
{
    if parts.len() == 0 {
        0
    } else {
        parts[0].len() + words_total(parts.drop_first())
    }
}

/// No word is empty, and every word stands in the line, in the order of the
/// words.
pub proof fn lemma_words_stand_in_line(line: Seq<u8>, at: int)
    requires
        0 <= at,
    ensures
        forall|i: int|
            0 <= i < words_from(line, at).len() ==> (#[trigger] words_from(line, at)[i]).len() > 0,
        words_total(words_from(line, at)) <= line.len() - at || at >= line.len(),
    decreases line.len() - at,
{
    if at < line.len() {
        lemma_word_fits(line, at);
        let n = word_len(line, at);
        if n == 0 {
            lemma_words_stand_in_line(line, at + 1);
        } else {
            lemma_words_stand_in_line(line, at + n);
            let first = seq![line.subrange(at, at + n)];
            let rest = words_from(line, at + n);
            assert((first + rest).drop_first() =~= rest);
        }
    }
}

} // verus!
