//! The first decisive item of a sequence: checks that go through items in order and
//! stop at the first one that decides the outcome.
use vstd::prelude::*;

verus! {

/// The verdict of the first item of `s` for which `f` gives one.
pub open spec fn first_some<A, R>(s: Seq<A>, f: spec_fn(A) -> Option<R>) -> Option<R>
    decreases s.len(),
{
    if s.len() == 0 {
        None
    } else {
        match first_some(s.drop_last(), f) {
            Some(r) => Some(r),
            None => f(s.last()),
        }
    }
}

/// One more item: the verdict so far stands, or else the new item's.
pub proof fn lemma_first_some_step<A, R>(s: Seq<A>, f: spec_fn(A) -> Option<R>, i: int)
    requires
        0 <= i < s.len(),
    ensures
        first_some(s.take(i + 1), f) == (match first_some(s.take(i), f) {
            Some(r) => Some(r),
            None => f(s[i]),
        }),
{
    assert(s.take(i + 1).drop_last() =~= s.take(i));
}

/// The whole sequence, as a prefix of itself.
pub proof fn lemma_first_some_all<A, R>(s: Seq<A>, f: spec_fn(A) -> Option<R>)
    ensures
        first_some(s.take(s.len() as int), f) == first_some(s, f),
{
    assert(s.take(s.len() as int) =~= s);
}

/// No verdict means no item gives one.
pub proof fn lemma_first_some_none<A, R>(s: Seq<A>, f: spec_fn(A) -> Option<R>)
    ensures
        first_some(s, f) is None <==> forall|i: int| 0 <= i < s.len() ==> (#[trigger] f(s[i])) is None,
    decreases s.len(),
{
    if s.len() > 0 {
        lemma_first_some_none(s.drop_last(), f);
        assert forall|i: int| 0 <= i < s.len() - 1 implies s.drop_last()[i] == s[i] by {}
    }
}

/// What follows a decided prefix does not change the verdict; after an undecided
/// prefix, the verdict is that of what follows.
pub proof fn lemma_first_some_append<A, R>(s: Seq<A>, t: Seq<A>, f: spec_fn(A) -> Option<R>)
    ensures
        first_some(s, f) is Some ==> first_some(s + t, f) == first_some(s, f),
        first_some(s, f) is None ==> first_some(s + t, f) == first_some(t, f),
    decreases t.len(),
{
    if t.len() == 0 {
        assert(s + t =~= s);
    } else {
        lemma_first_some_append(s, t.drop_last(), f);
        assert((s + t).drop_last() =~= s + t.drop_last());
        assert((s + t).last() == t.last());
    }
}

/// A verdict is the verdict of some item.
pub proof fn lemma_first_some_from_item<A, R>(s: Seq<A>, f: spec_fn(A) -> Option<R>)
    ensures
        first_some(s, f) matches Some(r) ==> exists|i: int| 0 <= i < s.len() && #[trigger] f(s[i]) == Some(r),
    decreases s.len(),
{
    if s.len() > 0 {
        lemma_first_some_from_item(s.drop_last(), f);
        if let Some(r) = first_some(s.drop_last(), f) {
            let i = choose|i: int| 0 <= i < s.drop_last().len() && #[trigger] f(s.drop_last()[i]) == Some(r);
            assert(s[i] == s.drop_last()[i]);
        } else {
            assert(s.last() == s[s.len() - 1]);
        }
    }
}

/// The verdict on a single item is that item's.
pub proof fn lemma_first_some_single<A, R>(s: Seq<A>, f: spec_fn(A) -> Option<R>)
    requires
        s.len() == 1,
    ensures
        first_some(s, f) == f(s[0]),
{
    assert(s.drop_last().len() == 0);
    assert(first_some(s.drop_last(), f) is None);
    assert(s.last() == s[0]);
}

/// A decided prefix decides the whole sequence.
pub proof fn lemma_first_some_prefix<A, R>(s: Seq<A>, f: spec_fn(A) -> Option<R>, k: int)
    requires
        0 <= k <= s.len(),
        first_some(s.take(k), f) is Some,
    ensures
        first_some(s, f) == first_some(s.take(k), f),
{
    lemma_first_some_append(s.take(k), s.skip(k), f);
    assert(s.take(k) + s.skip(k) =~= s);
}

} // verus!
