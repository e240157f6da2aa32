//! Searching a sequence for the first element of some kind, the runs of
//! elements of some kind at its two ends, and going through a sequence
//! element by element.

use vstd::prelude::*;

verus! {

/// The index of the first element that satisfies `p`, or the length of the
/// sequence where none does.
pub open spec fn first_where<A>(s: Seq<A>, p: spec_fn(A) -> bool) -> int
    decreases s.len(),
{
    if s.len() == 0 || p(s[0]) {
        0
    } else {
        1 + first_where(s.drop_first(), p)
    }
}

/// What `first_where` is: it lies within the sequence or at its end, the
/// element at it satisfies `p`, and no element before it does.
pub proof fn lemma_first_where<A>(s: Seq<A>, p: spec_fn(A) -> bool)
    ensures
        0 <= first_where(s, p) <= s.len(),
        first_where(s, p) < s.len() ==> p(s[first_where(s, p)]),
        forall|j: int| 0 <= j < first_where(s, p) ==> !p(#[trigger] s[j]),
    decreases s.len(),
{
    if !(s.len() == 0 || p(s[0])) {
        let t = s.drop_first();
        lemma_first_where(t, p);
        assert forall|j: int| 0 <= j < first_where(s, p) implies !p(#[trigger] s[j]) by {
            if j > 0 {
                assert(s[j] == t[j - 1]);
            }
        }
        if first_where(t, p) < t.len() {
            assert(s[first_where(t, p) + 1] == t[first_where(t, p)]);
        }
    }
}

/// An index whose element satisfies `p` (or the end of the sequence), with
/// no such element before it, is `first_where`.
pub proof fn lemma_first_where_unique<A>(s: Seq<A>, p: spec_fn(A) -> bool, k: int)
    requires
        0 <= k <= s.len(),
        k < s.len() ==> p(s[k]),
        forall|j: int| 0 <= j < k ==> !p(#[trigger] s[j]),
    ensures
        first_where(s, p) == k,
{
    lemma_first_where(s, p);
    let f = first_where(s, p);
    if f < k {
        assert(!p(s[f]));
    } else if k < f {
        assert(!p(s[k]));
    }
}

/// The number of elements at the start of the sequence that satisfy `p`.
pub open spec fn leading_run<A>(s: Seq<A>, p: spec_fn(A) -> bool) -> int
    decreases s.len(),
{
    if s.len() == 0 || !p(s[0]) {
        0
    } else {
        1 + leading_run(s.drop_first(), p)
    }
}

/// The number of elements at the end of the sequence that satisfy `p`.
pub open spec fn trailing_run<A>(s: Seq<A>, p: spec_fn(A) -> bool) -> int
    decreases s.len(),
{
    if s.len() == 0 || !p(s.last()) {
        0
    } else {
        1 + trailing_run(s.drop_last(), p)
    }
}

/// The sequence without the elements at its start and at its end that
/// satisfy `p`.
pub open spec fn without_ends<A>(s: Seq<A>, p: spec_fn(A) -> bool) -> Seq<A> {
    let start = leading_run(s, p);
    if start == s.len() {
        Seq::empty()
    } else {
        s.subrange(start, s.len() - trailing_run(s, p))
    }
}

/// What `leading_run` is: the elements before it satisfy `p`, and the one
/// at it, if there is one, does not.
pub proof fn lemma_leading_run<A>(s: Seq<A>, p: spec_fn(A) -> bool)
    ensures
        0 <= leading_run(s, p) <= s.len(),
        forall|j: int| 0 <= j < leading_run(s, p) ==> p(#[trigger] s[j]),
        leading_run(s, p) < s.len() ==> !p(s[leading_run(s, p)]),
    decreases s.len(),
{
    if !(s.len() == 0 || !p(s[0])) {
        let t = s.drop_first();
        lemma_leading_run(t, p);
        assert forall|j: int| 0 <= j < leading_run(s, p) implies p(#[trigger] s[j]) by {
            if j > 0 {
                assert(s[j] == t[j - 1]);
            }
        }
        if leading_run(t, p) < t.len() {
            assert(s[leading_run(t, p) + 1] == t[leading_run(t, p)]);
        }
    }
}

/// A number of leading elements that satisfy `p`, followed by one that does
/// not (or by the end of the sequence), is `leading_run`.
pub proof fn lemma_leading_run_unique<A>(s: Seq<A>, p: spec_fn(A) -> bool, k: int)
    requires
        0 <= k <= s.len(),
        forall|j: int| 0 <= j < k ==> p(#[trigger] s[j]),
        k < s.len() ==> !p(s[k]),
    ensures
        leading_run(s, p) == k,
{
    lemma_leading_run(s, p);
    let r = leading_run(s, p);
    if r < k {
        assert(p(s[r]));
    } else if k < r {
        assert(p(s[k]));
    }
}

/// What `trailing_run` is: that many elements at the end satisfy `p`, and
/// the one before them, if there is one, does not.
pub proof fn lemma_trailing_run<A>(s: Seq<A>, p: spec_fn(A) -> bool)
    ensures
        0 <= trailing_run(s, p) <= s.len(),
        forall|j: int| s.len() - trailing_run(s, p) <= j < s.len() ==> p(#[trigger] s[j]),
        trailing_run(s, p) < s.len() ==> !p(s[s.len() - trailing_run(s, p) - 1]),
    decreases s.len(),
{
    if !(s.len() == 0 || !p(s.last())) {
        let t = s.drop_last();
        lemma_trailing_run(t, p);
        assert forall|j: int| s.len() - trailing_run(s, p) <= j < s.len() implies p(
            #[trigger] s[j],
        ) by {
            if j < s.len() - 1 {
                assert(s[j] == t[j]);
            }
        }
        if trailing_run(t, p) < t.len() {
            assert(s[s.len() - trailing_run(s, p) - 1] == t[t.len() - trailing_run(t, p) - 1]);
        }
    }
}

/// A number of trailing elements that satisfy `p`, behind one that does not
/// (or behind the start of the sequence), is `trailing_run`.
pub proof fn lemma_trailing_run_unique<A>(s: Seq<A>, p: spec_fn(A) -> bool, k: int)
    requires
        0 <= k <= s.len(),
        forall|j: int| s.len() - k <= j < s.len() ==> p(#[trigger] s[j]),
        k < s.len() ==> !p(s[s.len() - k - 1]),
    ensures
        trailing_run(s, p) == k,
{
    lemma_trailing_run(s, p);
    let r = trailing_run(s, p);
    if r < k {
        assert(p(s[s.len() - r - 1]));
    } else if k < r {
        assert(p(s[s.len() - k - 1]));
    }
}

/// The part of a sequence up to and with the element at `i` is the part
/// before `i` with that element behind it.
pub proof fn lemma_prefix_step<A>(s: Seq<A>, i: int)
    requires
        0 <= i < s.len(),
    ensures
        s.subrange(0, i + 1).drop_last() == s.subrange(0, i),
        s.subrange(0, i + 1).last() == s[i],
{
    assert(s.subrange(0, i + 1).drop_last() =~= s.subrange(0, i));
}

/// The part of a sequence from the element at `i` on is that element with
/// the part from `i + 1` on behind it.
pub proof fn lemma_rest_step<A>(s: Seq<A>, i: int)
    requires
        0 <= i < s.len(),
    ensures
        s.subrange(i, s.len() as int).drop_first() == s.subrange(i + 1, s.len() as int),
        s.subrange(i, s.len() as int)[0] == s[i],
{
    assert(s.subrange(i, s.len() as int).drop_first() =~= s.subrange(i + 1, s.len() as int));
}

} // verus!
