//! Searching and selecting in sequences.
//!
//! The tables of the store are sequences, and statements search them and
//! select from them. What is said here holds of any sequence.

use vstd::prelude::*;

verus! {

/// The first element of `s` that meets `p`, if there is one.
pub open spec fn first_match<T>(s: Seq<T>, p: spec_fn(T) -> bool) -> Option<T> {
    let found = s.filter(p);
    if found.len() > 0 {
        Some(found[0])
    } else {
        None
    }
}

/// Where no element meets `p`, nothing is found.
pub proof fn lemma_first_match_none<T>(s: Seq<T>, p: spec_fn(T) -> bool)
    requires
        forall|j: int| 0 <= j < s.len() ==> !p(#[trigger] s[j]),
    ensures
        s.filter(p).len() == 0,
        first_match(s, p) is None,
    decreases s.len(),
{
    reveal(Seq::filter);
    if s.len() > 0 {
        lemma_first_match_none(s.drop_last(), p);
    }
}

/// The element at `i` is found where it meets `p` and none before it does.
pub proof fn lemma_first_match_at<T>(s: Seq<T>, p: spec_fn(T) -> bool, i: int)
    requires
        0 <= i < s.len(),
        p(s[i]),
        forall|j: int| 0 <= j < i ==> !p(#[trigger] s[j]),
    ensures
        first_match(s, p) == Some(s[i]),
    decreases s.len(),
{
    reveal(Seq::filter);
    if i == s.len() - 1 {
        lemma_first_match_none(s.drop_last(), p);
    } else {
        lemma_first_match_at(s.drop_last(), p, i);
    }
}

/// What is found meets `p` and stands in `s`, and where nothing is found no
/// element meets `p`.
pub proof fn lemma_first_match<T>(s: Seq<T>, p: spec_fn(T) -> bool)
    ensures
        first_match(s, p) matches Some(x) ==> p(x) && s.contains(x),
        first_match(s, p) is None ==> forall|j: int| 0 <= j < s.len() ==> !p(#[trigger] s[j]),
{
    let found = s.filter(p);
    if found.len() > 0 {
        s.lemma_filter_pred(p, 0);
        s.lemma_filter_contains_rev(p, found[0]);
    } else {
        assert forall|j: int| 0 <= j < s.len() implies !p(#[trigger] s[j]) by {
            if p(s[j]) {
                s.lemma_filter_contains(p, j);
            }
        }
    }
}

/// Filtering one element more keeps it or drops it.
pub proof fn lemma_filter_step<T>(s: Seq<T>, p: spec_fn(T) -> bool, i: int)
    requires
        0 <= i < s.len(),
    ensures
        s.take(i + 1).filter(p) == if p(s[i]) {
            s.take(i).filter(p).push(s[i])
        } else {
            s.take(i).filter(p)
        },
{
    s.lemma_take_succ_push(i);
    s.take(i).lemma_filter_push(s[i], p);
}

/// What is found in a sequence is found in the sequence with one more
/// element.
pub proof fn lemma_found_after_push<T>(s: Seq<T>, p: spec_fn(T) -> bool, x: T)
    requires
        first_match(s, p) is Some,
    ensures
        first_match(s.push(x), p) == first_match(s, p),
{
    s.lemma_filter_push(x, p);
}

/// An element that meets `p` makes the search succeed.
pub proof fn lemma_found_if_present<T>(s: Seq<T>, p: spec_fn(T) -> bool, i: int)
    requires
        0 <= i < s.len(),
        p(s[i]),
    ensures
        first_match(s, p) is Some,
{
    lemma_first_match(s, p);
}

/// A filter that every element passes changes nothing.
pub proof fn lemma_filter_all<T>(s: Seq<T>, p: spec_fn(T) -> bool)
    requires
        forall|i: int| 0 <= i < s.len() ==> p(#[trigger] s[i]),
    ensures
        s.filter(p) == s,
    decreases s.len(),
{
    reveal(Seq::filter);
    if s.len() > 0 {
        lemma_filter_all(s.drop_last(), p);
    }
}

/// Selecting from a sequence with one more element.
pub proof fn lemma_filter_map_push<A, B>(s: Seq<A>, f: spec_fn(A) -> Option<B>, x: A)
    ensures
        s.push(x).filter_map(f) == s.filter_map(f) + (match f(x) {
            Some(y) => seq![y],
            None => Seq::empty(),
        }),
{
    assert(s.push(x).drop_last() =~= s);
}

/// Selections that agree on every element select the same.
pub proof fn lemma_filter_map_agree<A, B>(
    s: Seq<A>,
    f: spec_fn(A) -> Option<B>,
    g: spec_fn(A) -> Option<B>,
)
    requires
        forall|i: int| 0 <= i < s.len() ==> f(#[trigger] s[i]) == g(s[i]),
    ensures
        s.filter_map(f) == s.filter_map(g),
    decreases s.len(),
{
    if s.len() > 0 {
        lemma_filter_map_agree(s.drop_last(), f, g);
    }
}

/// Elements that a selection passes over can be filtered out beforehand.
pub proof fn lemma_filter_map_after_filter<A, B>(
    s: Seq<A>,
    keep: spec_fn(A) -> bool,
    f: spec_fn(A) -> Option<B>,
)
    requires
        forall|i: int| 0 <= i < s.len() && !keep(#[trigger] s[i]) ==> f(s[i]) is None,
    ensures
        s.filter(keep).filter_map(f) == s.filter_map(f),
    decreases s.len(),
{
    reveal(Seq::filter);
    if s.len() > 0 {
        lemma_filter_map_after_filter(s.drop_last(), keep, f);
        if keep(s.last()) {
            lemma_filter_map_push(s.drop_last().filter(keep), f, s.last());
        }
    }
}

/// Elements that a selection passes over can be appended afterwards.
pub proof fn lemma_filter_map_passed_over<A, B>(s: Seq<A>, more: Seq<A>, f: spec_fn(A) -> Option<B>)
    requires
        forall|i: int| 0 <= i < more.len() ==> f(#[trigger] more[i]) is None,
    ensures
        (s + more).filter_map(f) == s.filter_map(f),
    decreases more.len(),
{
    if more.len() > 0 {
        lemma_filter_map_passed_over(s, more.drop_last(), f);
        assert((s + more).drop_last() =~= s + more.drop_last());
    }
}

/// The keys of the elements grow along the sequence.
pub open spec fn increasing<T>(s: Seq<T>, key_of: spec_fn(T) -> i32) -> bool {
    forall|i: int, j: int|
        0 <= i < j < s.len() ==> key_of(#[trigger] s[i]) < key_of(#[trigger] s[j])
}

/// Where the keys grow along a sequence, they grow along every selection
/// from it.
pub proof fn lemma_filter_increasing<T>(
    s: Seq<T>,
    p: spec_fn(T) -> bool,
    key_of: spec_fn(T) -> i32,
)
    requires
        increasing(s, key_of),
    ensures
        increasing(s.filter(p), key_of),
    decreases s.len(),
{
    reveal(Seq::filter);
    if s.len() > 0 {
        let front = s.drop_last();
        assert forall|i: int, j: int| 0 <= i < j < front.len() implies key_of(
            #[trigger] front[i],
        ) < key_of(#[trigger] front[j]) by {
            assert(front[i] == s[i] && front[j] == s[j]);
        }
        lemma_filter_increasing(front, p, key_of);
        let kept = front.filter(p);
        if p(s.last()) {
            assert forall|i: int, j: int| 0 <= i < j < kept.len() + 1 implies key_of(
                #[trigger] kept.push(s.last())[i],
            ) < key_of(#[trigger] kept.push(s.last())[j]) by {
                if j == kept.len() {
                    assert(kept.contains(kept[i]));
                    front.lemma_filter_contains_rev(p, kept[i]);
                    let k = choose|k: int| 0 <= k < front.len() && front[k] == kept[i];
                    assert(s[k] == kept[i]);
                    assert(s[s.len() - 1] == s.last());
                }
            }
        }
    }
}

} // verus!
