//! Laws of keeping the entries of a list that a rule accepts.

use vstd::prelude::*;

verus! {

/// Keeping by a rule what was already kept by it changes nothing.
pub proof fn lemma_filter_twice<A>(s: Seq<A>, keep: spec_fn(A) -> bool)
    ensures
        s.filter(keep).filter(keep) == s.filter(keep),
    decreases s.len(),
{
    reveal(Seq::filter);
    if s.len() > 0 {
        let rest = s.drop_last();
        lemma_filter_twice(rest, keep);
        if keep(s.last()) {
            let kept = rest.filter(keep).push(s.last());
            assert(kept.drop_last() == rest.filter(keep));
            assert(kept.last() == s.last());
        }
    }
}

/// A rule that keeps everything keeps the list as it is.
pub proof fn lemma_filter_all<A>(s: Seq<A>, keep: spec_fn(A) -> bool)
    requires
        forall|i: int| 0 <= i < s.len() ==> keep(#[trigger] s[i]),
    ensures
        s.filter(keep) == s,
    decreases s.len(),
{
    reveal(Seq::filter);
    if s.len() > 0 {
        let rest = s.drop_last();
        assert forall|i: int| 0 <= i < rest.len() implies keep(#[trigger] rest[i]) by {
            assert(rest[i] == s[i]);
        }
        lemma_filter_all(rest, keep);
        assert(keep(s[s.len() - 1]));
        assert(rest.push(s.last()) == s);
    }
}

/// What a rule keeps is exactly what it accepts: every kept entry is
/// accepted and was in the list, and every accepted entry of the list is
/// kept.
pub proof fn lemma_filter_exact<A>(s: Seq<A>, keep: spec_fn(A) -> bool)
    ensures
        forall|i: int| 0 <= i < s.filter(keep).len() ==> keep(#[trigger] s.filter(keep)[i]),
        forall|i: int| 0 <= i < s.filter(keep).len() ==> s.contains(#[trigger] s.filter(keep)[i]),
        forall|i: int| 0 <= i < s.len() && keep(s[i]) ==> s.filter(keep).contains(#[trigger] s[i]),
    decreases s.len(),
{
    reveal(Seq::filter);
    let kept = s.filter(keep);
    if s.len() > 0 {
        let rest = s.drop_last();
        let before = rest.filter(keep);
        lemma_filter_exact(rest, keep);
        assert forall|i: int| 0 <= i < kept.len() implies keep(#[trigger] kept[i]) && s.contains(
            kept[i],
        ) by {
            if i < before.len() {
                assert(kept[i] == before[i]);
                assert(rest.contains(before[i]));
                let j = choose|j: int| 0 <= j < rest.len() && rest[j] == before[i];
                assert(s[j] == before[i]);
            } else {
                assert(kept[i] == s[s.len() - 1]);
            }
        }
        assert forall|i: int| 0 <= i < s.len() && keep(s[i]) implies kept.contains(
            #[trigger] s[i],
        ) by {
            if i < rest.len() {
                assert(rest[i] == s[i]);
                assert(before.contains(rest[i]));
                let j = choose|j: int| 0 <= j < before.len() && before[j] == rest[i];
                assert(kept[j] == s[i]);
            } else {
                assert(kept[kept.len() - 1] == s[i]);
            }
        }
    }
}

} // verus!
