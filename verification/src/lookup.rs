//! Finding the first element of a sequence that meets a condition.
use vstd::prelude::*;

verus! {

/// The first element of `s` that satisfies `p`, if any.
pub open spec fn first_where<T>(s: Seq<T>, p: spec_fn(T) -> bool) -> Option<T>
    decreases s.len(),
{
    if s.len() == 0 {
        None
    } else if p(s[0]) {
        Some(s[0])
    } else {
        first_where(s.drop_first(), p)
    }
}

/// Skipping elements that fail `p` does not change the first match.
pub proof fn lemma_first_where_skip<T>(s: Seq<T>, p: spec_fn(T) -> bool, i: int)
    requires
        0 <= i <= s.len(),
        forall|j: int| 0 <= j < i ==> !p(#[trigger] s[j]),
    ensures
        first_where(s, p) == first_where(s.skip(i), p),
    decreases i,
{
    if i > 0 {
        lemma_first_where_skip(s, p, i - 1);
        let t = s.skip(i - 1);
        assert(t[0] == s[i - 1]);
        assert(t.drop_first() =~= s.skip(i));
    } else {
        assert(s.skip(0) =~= s);
    }
}

/// When the scan stops at `i`, the first match is `s[i]`; when it runs off the
/// end, there is none.
pub proof fn lemma_first_where_at<T>(s: Seq<T>, p: spec_fn(T) -> bool, i: int)
    requires
        0 <= i <= s.len(),
        forall|j: int| 0 <= j < i ==> !p(#[trigger] s[j]),
        i < s.len() ==> p(s[i]),
    ensures
        i < s.len() ==> first_where(s, p) == Some(s[i]),
        i == s.len() ==> first_where(s, p) is None,
{
    lemma_first_where_skip(s, p, i);
    if i < s.len() {
        assert(s.skip(i)[0] == s[i]);
    } else {
        assert(s.skip(i).len() == 0);
    }
}

} // verus!
