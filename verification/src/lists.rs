//! Lists picked, spread and searched: statements over `Seq` that the rest of the
//! crate phrases its results with.

use vstd::prelude::*;

verus! {

/// What `f` makes of the elements, in order, without those of which it makes
/// nothing.
pub open spec fn select<T, U>(s: Seq<T>, f: spec_fn(T) -> Option<U>) -> Seq<U>
    decreases s.len(),
{
    if s.len() == 0 {
        Seq::empty()
    } else {
        match f(s.last()) {
            Some(u) => select(s.drop_last(), f).push(u),
            None => select(s.drop_last(), f),
        }
    }
}

/// What `f` makes of the elements, end to end.
pub open spec fn spread<T, U>(s: Seq<T>, f: spec_fn(T) -> Seq<U>) -> Seq<U>
    decreases s.len(),
{
    if s.len() == 0 {
        Seq::empty()
    } else {
        spread(s.drop_last(), f) + f(s.last())
    }
}

pub proof fn lemma_select_step<T, U>(s: Seq<T>, i: int, f: spec_fn(T) -> Option<U>)
    requires
        0 <= i < s.len(),
    ensures
        select(s.take(i + 1), f) == (match f(s[i]) {
            Some(u) => select(s.take(i), f).push(u),
            None => select(s.take(i), f),
        }),
{
    assert(s.take(i + 1).drop_last() =~= s.take(i));
}

pub proof fn lemma_spread_step<T, U>(s: Seq<T>, i: int, f: spec_fn(T) -> Seq<U>)
    requires
        0 <= i < s.len(),
    ensures
        spread(s.take(i + 1), f) == spread(s.take(i), f) + f(s[i]),
{
    assert(s.take(i + 1).drop_last() =~= s.take(i));
}

pub proof fn lemma_select_whole<T, U>(s: Seq<T>, f: spec_fn(T) -> Option<U>)
    ensures
        select(s.take(s.len() as int), f) == select(s, f),
        select(s.take(0), f) == Seq::<U>::empty(),
{
    assert(s.take(s.len() as int) =~= s);
}

pub proof fn lemma_spread_whole<T, U>(s: Seq<T>, f: spec_fn(T) -> Seq<U>)
    ensures
        spread(s.take(s.len() as int), f) == spread(s, f),
        spread(s.take(0), f) == Seq::<U>::empty(),
{
    assert(s.take(s.len() as int) =~= s);
}

/// Every selected element comes from an element of the list.
pub proof fn lemma_select_source<T, U>(s: Seq<T>, f: spec_fn(T) -> Option<U>, j: int) -> (i: int)
    requires
        0 <= j < select(s, f).len(),
    ensures
        0 <= i < s.len(),
        f(s[i]) == Some(select(s, f)[j]),
    decreases s.len(),
{
    let init = select(s.drop_last(), f);
    if j < init.len() {
        lemma_select_source(s.drop_last(), f, j)
    } else {
        s.len() - 1
    }
}

/// Every element of which something is made is represented in the selection.
pub proof fn lemma_select_covers<T, U>(s: Seq<T>, f: spec_fn(T) -> Option<U>, i: int) -> (j: int)
    requires
        0 <= i < s.len(),
        f(s[i]) is Some,
    ensures
        0 <= j < select(s, f).len(),
        f(s[i]) == Some(select(s, f)[j]),
    decreases s.len(),
{
    if i == s.len() - 1 {
        select(s, f).len() - 1
    } else {
        lemma_select_covers(s.drop_last(), f, i)
    }
}

/// A selection is never longer than the list.
pub proof fn lemma_select_len<T, U>(s: Seq<T>, f: spec_fn(T) -> Option<U>)
    ensures
        select(s, f).len() <= s.len(),
    decreases s.len(),
{
    if s.len() > 0 {
        lemma_select_len(s.drop_last(), f);
    }
}

/// The place of the first element that equals `x`, told by what is before it.
pub proof fn lemma_first_index<T>(s: Seq<T>, x: T, i: int)
    requires
        0 <= i < s.len(),
        s[i] == x,
        forall|k: int| 0 <= k < i ==> s[k] != x,
    ensures
        s.index_of_first(x) == Some(i),
{
    s.index_of_first_ensures(x);
}

pub proof fn lemma_no_index<T>(s: Seq<T>, x: T)
    requires
        forall|k: int| 0 <= k < s.len() ==> s[k] != x,
    ensures
        s.index_of_first(x) is None,
{
    s.index_of_first_ensures(x);
}

} // verus!
