//! Locating the first element of a sequence that has a given property.

use vstd::prelude::*;

verus! {

/// The property of being equal to `x`.
pub open spec fn equal_to<T>(x: T) -> spec_fn(T) -> bool {
    |y: T| y == x
}

/// The index of the first element at or after `from` that satisfies `p`,
/// or the length of `s` when no such element exists.
pub open spec fn find_from<T>(s: Seq<T>, from: int, p: spec_fn(T) -> bool) -> int
    decreases s.len() - from,
{
    if from < 0 || from >= s.len() {
        s.len() as int
    } else if p(s[from]) {
        from
    } else {
        find_from(s, from + 1, p)
    }
}

/// `find_from` lands on the first match: everything it passes over fails `p`,
/// and where it stops short of the end the element there satisfies `p`.
pub proof fn lemma_find_from<T>(s: Seq<T>, from: int, p: spec_fn(T) -> bool)
    requires
        0 <= from <= s.len(),
    ensures
        from <= find_from(s, from, p) <= s.len(),
        forall|j: int| from <= j < find_from(s, from, p) ==> !p(#[trigger] s[j]),
        find_from(s, from, p) < s.len() ==> p(s[find_from(s, from, p)]),
    decreases s.len() - from,
{
    if from < s.len() && !p(s[from]) {
        lemma_find_from(s, from + 1, p);
    }
}

/// Any index with the two properties of a first match is the one `find_from` returns.
pub proof fn lemma_find_from_unique<T>(s: Seq<T>, from: int, p: spec_fn(T) -> bool, at: int)
    requires
        0 <= from <= at <= s.len(),
        forall|j: int| from <= j < at ==> !p(#[trigger] s[j]),
        at < s.len() ==> p(s[at]),
    ensures
        find_from(s, from, p) == at,
    decreases at - from,
{
    if from < at {
        lemma_find_from_unique(s, from + 1, p, at);
    }
}

} // verus!
