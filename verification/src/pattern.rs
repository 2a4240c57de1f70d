//! The calls into the `regex` crate, and what is taken on trust of them.
//!
//! The two types of that crate go by other names here, `Compiled` and
//! `Refusal`: the names that they have there are those of the needle `Regex`
//! and of the `Error` of this library.

use vstd::prelude::*;
use regex::bytes::Regex as Compiled;
use regex::Error as Refusal;

verus! {

/// A compiled regular expression of the `regex` crate, on bytes.
#[verifier::external_type_specification]
#[verifier::external_body]
pub struct ExCompiled(Compiled);

/// The error with which the `regex` crate refuses a pattern.
#[verifier::external_type_specification]
#[verifier::external_body]
pub struct ExRefusal(Refusal);

/// Whether `regex::bytes::Regex::new` accepts `pattern`: it is valid syntax
/// and compiles within the size limit that the crate applies by default.
pub uninterp spec fn regex_compiles(pattern: Seq<char>) -> bool;

/// The bounds of the leftmost-first match that the regular expression made
/// from `pattern` has in `haystack`: what `regex::bytes::Regex::find` gives.
pub uninterp spec fn regex_find(pattern: Seq<char>, haystack: Seq<u8>) -> Option<(usize, usize)>;

/// The pattern that a compiled regular expression was made from: what
/// `regex::bytes::Regex::as_str` gives.
pub uninterp spec fn regex_source(compiled: Compiled) -> Seq<char>;

/// Calls `regex::bytes::Regex::new`. Not proved: that it succeeds on exactly
/// the patterns of `regex_compiles`, and that what it returns was made from
/// `pattern`.
#[verifier::external_body]
pub(crate) fn compile(pattern: &str) -> (r: Result<Compiled, Refusal>)
    ensures
        r is Ok <==> regex_compiles(pattern@),
        r matches Ok(compiled) ==> regex_source(compiled) == pattern@,
{
    Compiled::new(pattern)
}

/// Calls `regex::bytes::Regex::find`. Not proved: that the bounds are those
/// of `regex_find` for the pattern of `compiled`, and that they are in order
/// and inside `haystack`, as the crate documents of a match.
#[verifier::external_body]
pub(crate) fn search(compiled: &Compiled, haystack: &[u8]) -> (r: Option<(usize, usize)>)
    ensures
        r == regex_find(regex_source(*compiled), haystack@),
        r matches Some((start, end)) ==> start <= end <= haystack@.len(),
{
    match compiled.find(haystack) {
        Some(m) => Some((m.start(), m.end())),
        None => None,
    }
}

} // verus!
