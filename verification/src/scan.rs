//! A small spec-level scanning utility shared by the lexer and the parser.
//!
//! Both of them repeatedly look for the first element of a sequence, at or
//! after some position, that satisfies a predicate (the first non-word
//! character, the first closing bracket, and so on). `scan_to` is the
//! mathematical form of that search; the lemmas connect it to the loops that
//! perform it.

use vstd::prelude::*;

verus! {

/// Index of the first element of `s` at or after `i` that satisfies `stop`,
/// or `s.len()` if there is none (or if `i` lies outside `s`).
pub open spec fn scan_to<T>(s: Seq<T>, i: int, stop: spec_fn(T) -> bool) -> int
    decreases s.len() - i,
{
    if !(0 <= i < s.len()) {
        s.len() as int
    } else if stop(s[i]) {
        i
    } else {
        scan_to(s, i + 1, stop)
    }
}

/// `scan_to` stays within `[i, s.len()]`, skips only elements that do not
/// satisfy `stop`, and lands on one that does unless it ran off the end.
pub proof fn lemma_scan_to_bounds<T>(s: Seq<T>, i: int, stop: spec_fn(T) -> bool)
    requires
        0 <= i <= s.len(),
    ensures
        i <= scan_to(s, i, stop) <= s.len(),
        forall|k: int| i <= k < scan_to(s, i, stop) ==> !stop(s[k]),
        scan_to(s, i, stop) < s.len() ==> stop(s[scan_to(s, i, stop)]),
    decreases s.len() - i,
{
    if i < s.len() && !stop(s[i]) {
        lemma_scan_to_bounds(s, i + 1, stop);
    }
}

/// A position `j` with no stopping element before it, and a stopping element
/// (or the end of `s`) at it, is exactly `scan_to(s, i, stop)`.
pub proof fn lemma_scan_to_is<T>(s: Seq<T>, i: int, stop: spec_fn(T) -> bool, j: int)
    requires
        0 <= i <= j <= s.len(),
        forall|k: int| i <= k < j ==> !stop(s[k]),
        j == s.len() || stop(s[j]),
    ensures
        scan_to(s, i, stop) == j,
    decreases j - i,
{
    if i < j {
        lemma_scan_to_is(s, i + 1, stop, j);
    }
}

} // verus!
