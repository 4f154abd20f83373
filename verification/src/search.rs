//! The first element of a sequence that satisfies a predicate.
//!
//! Scanning for a character class, looking a header up by name, choosing a
//! route and finding a file by name are all searches for the first element
//! that meets some condition. They share the definition and the lemmas given
//! here.
use vstd::prelude::*;

verus! {

/// The least index at or after `from` whose element satisfies `p`, or the
/// length of `s` where no element does.
pub open spec fn first_index<T>(s: Seq<T>, p: spec_fn(T) -> bool, from: int) -> int
    decreases s.len() - from,
{
    if from < 0 || from >= s.len() {
        s.len() as int
    } else if p(s[from]) {
        from
    } else {
        first_index(s, p, from + 1)
    }
}

/// `first_index` lies between `from` and the length, no element before it
/// satisfies `p`, and the element at it does, where there is one.
pub proof fn lemma_first_index<T>(s: Seq<T>, p: spec_fn(T) -> bool, from: int)
    requires
        0 <= from <= s.len(),
    ensures
        from <= first_index(s, p, from) <= s.len(),
        forall|j: int| from <= j < first_index(s, p, from) ==> !#[trigger] p(s[j]),
        first_index(s, p, from) < s.len() ==> p(s[first_index(s, p, from)]),
    decreases s.len() - from,
{
    if from < s.len() && !p(s[from]) {
        lemma_first_index(s, p, from + 1);
    }
}

/// An index that no satisfying element precedes, and that is the length or
/// holds a satisfying element, is the one that `first_index` gives.
pub proof fn lemma_first_index_unique<T>(s: Seq<T>, p: spec_fn(T) -> bool, from: int, at: int)
    requires
        0 <= from <= at <= s.len(),
        forall|j: int| from <= j < at ==> !#[trigger] p(s[j]),
        at < s.len() ==> p(s[at]),
    ensures
        first_index(s, p, from) == at,
    decreases at - from,
{
    if from < at {
        lemma_first_index_unique(s, p, from + 1, at);
    }
}

/// Of two elements that satisfy `p`, the later one is never the first.
pub proof fn lemma_first_index_earliest<T>(s: Seq<T>, p: spec_fn(T) -> bool, i: int)
    requires
        0 <= i < s.len(),
        p(s[i]),
    ensures
        0 <= first_index(s, p, 0) <= i,
        p(s[first_index(s, p, 0)]),
{
    lemma_first_index(s, p, 0);
}

} // verus!
