//! Finding the first place at which a byte string occurs in another.

use vstd::prelude::*;

verus! {

/// The byte strings of `strings`, as sequences.
pub open spec fn views(strings: Seq<Vec<u8>>) -> Seq<Seq<u8>> {
    Seq::new(strings.len(), |i: int| strings[i]@)
}

/// Whether `needle` stands in `buf` at offset `at`.
pub open spec fn occurs_at(needle: Seq<u8>, buf: Seq<u8>, at: int) -> bool {
    &&& 0 <= at
    &&& at + needle.len() <= buf.len()
    &&& buf.subrange(at, at + needle.len()) == needle
}

/// Whether `at` is the leftmost offset at which `needle` stands in `buf`.
pub open spec fn is_first_occurrence(needle: Seq<u8>, buf: Seq<u8>, at: int) -> bool {
    &&& occurs_at(needle, buf, at)
    &&& forall|before: int| 0 <= before < at ==> !occurs_at(needle, buf, before)
}

/// The leftmost offset at which `needle` stands in `buf`, if it stands
/// anywhere.
pub open spec fn first_occurrence(needle: Seq<u8>, buf: Seq<u8>) -> Option<int> {
    if exists|at: int| occurs_at(needle, buf, at) {
        Some(choose|at: int| is_first_occurrence(needle, buf, at))
    } else {
        None
    }
}

/// A leftmost offset is the one that `first_occurrence` names.
pub proof fn lemma_first_occurrence_is(needle: Seq<u8>, buf: Seq<u8>, at: int)
    requires
        is_first_occurrence(needle, buf, at),
    ensures
        first_occurrence(needle, buf) == Some(at),
{
    let chosen = choose|c: int| is_first_occurrence(needle, buf, c);
    assert(is_first_occurrence(needle, buf, chosen));
    if chosen < at {
        assert(!occurs_at(needle, buf, chosen));
    }
    if at < chosen {
        assert(!occurs_at(needle, buf, at));
    }
}

/// Where nothing occurs below `bound`, and nothing can start at or after it,
/// there is no occurrence at all.
pub proof fn lemma_no_occurrence(needle: Seq<u8>, buf: Seq<u8>, bound: int)
    requires
        forall|at: int| 0 <= at < bound ==> !occurs_at(needle, buf, at),
        bound + needle.len() > buf.len(),
    ensures
        first_occurrence(needle, buf) is None,
{
    assert forall|at: int| !occurs_at(needle, buf, at) by {
        if 0 <= at < bound {
            assert(!occurs_at(needle, buf, at));
        }
    }
}

/// What `first_occurrence` names is a leftmost occurrence, and lies inside
/// `buf`.
pub proof fn lemma_first_occurrence_found(needle: Seq<u8>, buf: Seq<u8>)
    requires
        first_occurrence(needle, buf) is Some,
    ensures
        is_first_occurrence(needle, buf, first_occurrence(needle, buf).unwrap()),
{
    let witness = choose|at: int| occurs_at(needle, buf, at);
    lemma_least_occurrence(needle, buf, witness);
}

/// Below any occurrence there is a leftmost one.
proof fn lemma_least_occurrence(needle: Seq<u8>, buf: Seq<u8>, at: int)
    requires
        occurs_at(needle, buf, at),
    ensures
        exists|least: int| is_first_occurrence(needle, buf, least),
    decreases at,
{
    if exists|before: int| 0 <= before < at && occurs_at(needle, buf, before) {
        let before = choose|before: int| 0 <= before < at && occurs_at(needle, buf, before);
        lemma_least_occurrence(needle, buf, before);
    } else {
        assert(is_first_occurrence(needle, buf, at));
    }
}

/// The empty string stands at the very start of every buffer.
pub proof fn lemma_empty_occurs_first(buf: Seq<u8>)
    ensures
        first_occurrence(Seq::<u8>::empty(), buf) == Some(0int),
{
    assert(buf.subrange(0, 0) =~= Seq::<u8>::empty());
    lemma_first_occurrence_is(Seq::<u8>::empty(), buf, 0);
}

/// In front of its leftmost occurrence, a string does not occur: the bytes
/// before the first occurrence do not hold it.
pub proof fn lemma_no_occurrence_before_first(needle: Seq<u8>, buf: Seq<u8>, at: int)
    requires
        is_first_occurrence(needle, buf, at),
        at > 0,
    ensures
        first_occurrence(needle, buf.subrange(0, at)) is None,
{
    let front = buf.subrange(0, at);
    assert forall|j: int| !occurs_at(needle, front, j) by {
        if occurs_at(needle, front, j) {
            assert(buf.subrange(j, j + needle.len()) =~= front.subrange(j, j + needle.len()));
            assert(occurs_at(needle, buf, j));
            if needle.len() == 0 {
                assert(buf.subrange(0, 0) =~= needle);
                assert(occurs_at(needle, buf, 0));
            }
        }
    }
}

/// Tells whether `needle` stands in `buf` at offset `at`.
fn occurs_here(needle: &[u8], buf: &[u8], at: usize) -> (yes: bool)
    requires
        at + needle@.len() <= buf@.len(),
    ensures
        yes == occurs_at(needle@, buf@, at as int),
{
    let n = needle.len();
    let total = buf.len();
    let mut k: usize = 0;
    while k < n
        invariant
            n == needle@.len(),
            total == buf@.len(),
            k <= n,
            at + n <= total,
            forall|j: int| 0 <= j < k ==> buf@[at + j] == needle@[j],
        decreases n - k,
    {
        if buf[at + k] != needle[k] {
            proof {
                let window = buf@.subrange(at as int, at + n);
                assert(window[k as int] == buf@[at + k]);
            }
            return false;
        }
        k += 1;
    }
    proof {
        assert(buf@.subrange(at as int, at + n) =~= needle@);
    }
    true
}

/// The leftmost offset at which `needle` stands in `buf`.
///
/// The empty needle stands at offset 0 of every buffer, the empty one too.
pub fn find(needle: &[u8], buf: &[u8]) -> (found: Option<usize>)
    ensures
        found matches Some(at) ==> first_occurrence(needle@, buf@) == Some(at as int),
        found is None ==> first_occurrence(needle@, buf@) is None,
        found matches Some(at) ==> at + needle@.len() <= buf@.len() <= usize::MAX,
{
    if buf.len() < needle.len() {
        proof {
            lemma_no_occurrence(needle@, buf@, 0);
        }
        return None;
    }
    let last: usize = buf.len() - needle.len();
    let mut at: usize = 0;
    loop
        invariant
            at <= last,
            last + needle@.len() == buf@.len() <= usize::MAX,
            forall|before: int| 0 <= before < at ==> !occurs_at(needle@, buf@, before),
        decreases last - at,
    {
        if occurs_here(needle, buf, at) {
            proof {
                lemma_first_occurrence_is(needle@, buf@, at as int);
            }
            return Some(at);
        }
        if at == last {
            proof {
                lemma_no_occurrence(needle@, buf@, at + 1);
            }
            return None;
        }
        at += 1;
    }
}

} // verus!
