//! Facts about filtering a sequence whose elements carry growing keys.

use vstd::prelude::*;

verus! {

/// Whether the keys of `s` grow strictly from each element to the next.
pub open spec fn increasing<A>(s: Seq<A>, key: spec_fn(A) -> int) -> bool {
    forall|i: int, j: int| 0 <= i < j < s.len() ==> key(#[trigger] s[i]) < key(#[trigger] s[j])
}

/// A filter that every element passes changes nothing.
pub proof fn lemma_filter_keeps_all<A>(s: Seq<A>, keep: spec_fn(A) -> bool)
    requires
        forall|i: int| 0 <= i < s.len() ==> keep(#[trigger] s[i]),
    ensures
        s.filter(keep) == s,
    decreases s.len(),
{
    reveal(Seq::filter);
    if s.len() > 0 {
        lemma_filter_keeps_all(s.drop_last(), keep);
        assert(s.drop_last().push(s.last()) =~= s);
    }
}

/// A filter that every element but the one at `at` passes removes that one.
pub proof fn lemma_filter_drops_one<A>(s: Seq<A>, keep: spec_fn(A) -> bool, at: int)
    requires
        0 <= at < s.len(),
        !keep(s[at]),
        forall|i: int| 0 <= i < s.len() && i != at ==> keep(#[trigger] s[i]),
    ensures
        s.filter(keep) == s.remove(at),
    decreases s.len(),
{
    reveal(Seq::filter);
    if at == s.len() - 1 {
        lemma_filter_keeps_all(s.drop_last(), keep);
        assert(s.remove(at) =~= s.drop_last());
    } else {
        lemma_filter_drops_one(s.drop_last(), keep, at);
        assert(s.drop_last().remove(at).push(s.last()) =~= s.remove(at));
    }
}

/// What a filter leaves of a sequence with growing keys: elements of the
/// sequence that pass, with keys that still grow.
pub proof fn lemma_filter_of_increasing<A>(
    s: Seq<A>,
    key: spec_fn(A) -> int,
    keep: spec_fn(A) -> bool,
)
    requires
        increasing(s, key),
    ensures
        increasing(s.filter(keep), key),
        forall|i: int|
            0 <= i < s.filter(keep).len() ==> keep(#[trigger] s.filter(keep)[i]) && exists|k: int|
                0 <= k < s.len() && #[trigger] s[k] == s.filter(keep)[i],
    decreases s.len(),
{
    reveal(Seq::filter);
    if s.len() > 0 {
        let rest = s.drop_last();
        let last = s.last();
        lemma_filter_of_increasing(rest, key, keep);
        let kept = rest.filter(keep);
        let all = s.filter(keep);
        assert forall|i: int| 0 <= i < kept.len() implies key(#[trigger] kept[i]) < key(last) && (
        exists|k: int| 0 <= k < s.len() && #[trigger] s[k] == kept[i]) by {
            let k = choose|k: int| 0 <= k < rest.len() && #[trigger] rest[k] == kept[i];
            assert(s[k] == kept[i]);
            assert(key(s[k]) < key(s[s.len() - 1]));
        }
        assert forall|i: int| 0 <= i < all.len() implies keep(#[trigger] all[i]) && exists|k: int|
            0 <= k < s.len() && #[trigger] s[k] == all[i] by {
            if i < kept.len() {
                assert(all[i] == kept[i]);
            } else {
                assert(s[s.len() - 1] == all[i]);
            }
        }
        assert forall|i: int, j: int| 0 <= i < j < all.len() implies key(#[trigger] all[i]) < key(
            #[trigger] all[j],
        ) by {
            assert(all[i] == kept[i]);
            if j < kept.len() {
                assert(all[j] == kept[j]);
            }
        }
    }
}

/// Filtering twice, where everything the second filter keeps passes the
/// first, is filtering once with the second.
pub proof fn lemma_filter_within<A>(s: Seq<A>, first: spec_fn(A) -> bool, second: spec_fn(A) -> bool)
    requires
        forall|a: A| #[trigger] second(a) ==> first(a),
    ensures
        s.filter(first).filter(second) == s.filter(second),
    decreases s.len(),
{
    reveal(Seq::filter);
    if s.len() > 0 {
        let rest = s.drop_last();
        let last = s.last();
        lemma_filter_within(rest, first, second);
        if first(last) {
            rest.filter(first).lemma_filter_push(last, second);
        }
    }
}

/// A filter that nothing passes leaves nothing.
pub proof fn lemma_filter_keeps_none<A>(s: Seq<A>, keep: spec_fn(A) -> bool)
    requires
        forall|i: int| 0 <= i < s.len() ==> !keep(#[trigger] s[i]),
    ensures
        s.filter(keep) == Seq::<A>::empty(),
    decreases s.len(),
{
    reveal(Seq::filter);
    if s.len() > 0 {
        lemma_filter_keeps_none(s.drop_last(), keep);
    }
}

} // verus!
