//! Statements about character sequences that the contracts of this crate share.

use vstd::prelude::*;

verus! {

/// `needle` stands in `haystack` at position `start`, character for character.
pub open spec fn occurs_at(needle: Seq<char>, haystack: Seq<char>, start: int) -> bool {
    &&& 0 <= start
    &&& start + needle.len() <= haystack.len()
    &&& haystack.subrange(start, start + needle.len()) == needle
}

/// `needle` stands somewhere in `haystack` as a run of consecutive characters.
///
/// The definition is kept from the solver until it is revealed: a proof that
/// only passes the fact along does not pay for the quantifier.
#[verifier::opaque]
pub open spec fn occurs_in(needle: Seq<char>, haystack: Seq<char>) -> bool {
    exists|start: int| occurs_at(needle, haystack, start)
}

/// A text that stands at some position of another occurs in it.
pub proof fn lemma_occurs_in_at(needle: Seq<char>, haystack: Seq<char>, start: int)
    requires
        occurs_at(needle, haystack, start),
    ensures
        occurs_in(needle, haystack),
{
    reveal(occurs_in);
}

/// A text occurs in every text that ends with it, right behind what comes
/// before it.
pub proof fn lemma_occurs_after_prefix(prefix: Seq<char>, needle: Seq<char>)
    ensures
        occurs_at(needle, prefix + needle, prefix.len() as int),
        occurs_in(needle, prefix + needle),
{
    let whole = prefix + needle;
    let start = prefix.len() as int;
    assert(whole.subrange(start, start + needle.len()) =~= needle);
    lemma_occurs_in_at(needle, whole, start);
}

} // verus!
