//! A conservative nesting bound on documents, so that the engine's recursion
//! over a parsed tree stays within a safe depth.
//!
//! Every nesting level of a parsed document consumes at least one indicator
//! character of its text — a block or flow collection opener, a mapping
//! colon, or an anchor — so the depth of the parse tree is at most the count
//! of those characters plus one. Documents over the bound are refused before
//! the engine sees them.

use vstd::prelude::*;

verus! {

/// The number of indicator characters a document may hold before it is
/// refused as nested too deeply.
pub const DOC_NESTING_LIMIT: u64 = 10000;

/// A character that can open one nesting level: a block sequence dash, a
/// mapping colon, an explicit key marker, a flow opener, or an anchor.
pub open spec fn is_nesting_indicator(c: char) -> bool {
    c == '-' || c == ':' || c == '?' || c == '[' || c == '{' || c == '&'
}

/// `is_nesting_indicator` as a value, so that every contract counts by one
/// and the same predicate.
pub open spec fn nesting_pred() -> spec_fn(char) -> bool {
    |c: char| is_nesting_indicator(c)
}

/// How many indicator characters the document holds.
pub open spec fn nesting_measure(s: Seq<char>) -> int {
    s.filter(nesting_pred()).len() as int
}

/// The document's indicator count stays within the bound.
pub open spec fn doc_shallow(s: Seq<char>) -> bool {
    nesting_measure(s) <= DOC_NESTING_LIMIT
}

/// Every document stays within the bound.
pub open spec fn docs_shallow(docs: Seq<Seq<char>>) -> bool {
    forall|j: int| 0 <= j < docs.len() ==> doc_shallow(#[trigger] docs[j])
}

proof fn lemma_measure_push(s: Seq<char>, c: char)
    ensures
        is_nesting_indicator(c) ==> nesting_measure(s.push(c)) == nesting_measure(s) + 1,
        !is_nesting_indicator(c) ==> nesting_measure(s.push(c)) == nesting_measure(s),
{
    reveal(Seq::filter);
    assert(s.push(c).drop_last() =~= s);
    assert(s.push(c).last() == c);
}

proof fn lemma_measure_prefix(s: Seq<char>, n: int)
    requires
        0 <= n <= s.len(),
    ensures
        nesting_measure(s.take(n)) <= nesting_measure(s),
{
    assert(s =~= s.take(n) + s.skip(n));
    Seq::<char>::filter_distributes_over_add(s.take(n), s.skip(n), nesting_pred());
}

/// Whether the document's indicator count stays within the bound.
pub fn doc_is_shallow(s: &str) -> (r: bool)
    ensures
        r == doc_shallow(s@),
{
    let mut n: u64 = 0;
    for c in it: s.chars()
        invariant
            it.seq() == s@,
            n as int == nesting_measure(s@.take(it.index() as int)),
            n <= DOC_NESTING_LIMIT,
    {
        let hit = c == '-' || c == ':' || c == '?' || c == '[' || c == '{' || c == '&';
        proof {
            assert(s@.take(it.index() as int + 1) =~= s@.take(it.index() as int).push(c));
            lemma_measure_push(s@.take(it.index() as int), c);
        }
        if hit {
            if n == DOC_NESTING_LIMIT {
                proof {
                    lemma_measure_prefix(s@, it.index() as int + 1);
                }
                return false;
            }
            n = n + 1;
        }
    }
    proof {
        assert(s@.take(s@.len() as int) =~= s@);
    }
    true
}

} // verus!
