//! Class composition: joining a base class and the fragments of the variants
//! into one class string.

use vstd::prelude::*;

verus! {

/// The text of each fragment of a list.
pub open spec fn texts(fragments: Seq<&str>) -> Seq<Seq<char>> {
    fragments.map_values(|s: &str| s@)
}

/// `acc` followed by `fragment`, with one space between them where both have
/// something to say. An empty fragment leaves `acc` as it is.
pub open spec fn join_fragment(acc: Seq<char>, fragment: Seq<char>) -> Seq<char> {
    if fragment.len() == 0 {
        acc
    } else if acc.len() == 0 {
        fragment
    } else {
        acc + seq![' '] + fragment
    }
}

/// The class string of a base class and its fragments, taken in order.
pub open spec fn compose_spec(base: Seq<char>, fragments: Seq<Seq<char>>) -> Seq<char>
    decreases fragments.len(),
{
    if fragments.len() == 0 {
        base
    } else {
        join_fragment(compose_spec(base, fragments.drop_last()), fragments.last())
    }
}

/// A class string is tidy when it neither starts nor ends with a space and
/// holds no two spaces in a row.
pub open spec fn is_tidy(s: Seq<char>) -> bool {
    &&& s.len() > 0 ==> s[0] != ' ' && s[s.len() - 1] != ' '
    &&& forall|i: int| 0 < i < s.len() ==> !(s[i - 1] == ' ' && #[trigger] s[i] == ' ')
}

/// `part` occurs in `whole` as a run of neighbouring characters.
pub open spec fn occurs_in(part: Seq<char>, whole: Seq<char>) -> bool {
    exists|at: int|
        0 <= at && at + part.len() <= whole.len() && #[trigger] whole.subrange(
            at,
            at + part.len(),
        ) == part
}

/// Adds one fragment to a class string.
pub fn push_fragment(acc: &mut String, fragment: &str)
    ensures
        final(acc)@ == join_fragment(old(acc)@, fragment@),
{
    if !fragment.is_empty() {
        if !acc.as_str().is_empty() {
            proof {
                reveal_strlit(" ");
                assert(" "@ =~= seq![' ']);
            }
            acc.append(" ");
        }
        acc.append(fragment);
    }
}

/// Joins `base` and each non-empty fragment, in the order given, with single
/// spaces.
pub fn compose(base: &str, fragments: &[&str]) -> (out: String)
    ensures
        out@ == compose_spec(base@, texts(fragments@)),
{
    let mut out = String::from_str(base);
    let mut i: usize = 0;
    while i < fragments.len()
        invariant
            i <= fragments.len(),
            out@ == compose_spec(base@, texts(fragments@).take(i as int)),
        decreases fragments.len() - i,
    {
        proof {
            let upto = texts(fragments@).take(i + 1);
            assert(upto.drop_last() =~= texts(fragments@).take(i as int));
            assert(upto.last() == fragments@[i as int]@);
        }
        push_fragment(&mut out, fragments[i]);
        i += 1;
    }
    proof {
        assert(texts(fragments@).take(i as int) =~= texts(fragments@));
    }
    out
}

/// Without fragments the class string is the base class, letter for letter.
pub proof fn lemma_compose_without_fragments(base: Seq<char>)
    ensures
        compose_spec(base, Seq::empty()) == base,
{
}

/// After a non-empty base, two non-empty fragments with an empty one between
/// them are joined by exactly two spaces: the empty one adds none.
pub proof fn lemma_compose_around_empty(base: Seq<char>, first: Seq<char>, second: Seq<char>)
    requires
        base.len() > 0,
        first.len() > 0,
        second.len() > 0,
    ensures
        compose_spec(base, seq![first, Seq::empty(), second]) == join_fragment(
            join_fragment(base, first),
            second,
        ),
        join_fragment(join_fragment(base, first), second) == base + seq![' '] + first + seq![' ']
            + second,
{
    let all = seq![first, Seq::<char>::empty(), second];
    let two = seq![first, Seq::<char>::empty()];
    let one = seq![first];
    assert(all.drop_last() =~= two);
    assert(two.drop_last() =~= one);
    assert(one.drop_last() =~= Seq::<Seq<char>>::empty());
    reveal_with_fuel(compose_spec, 4);
}

/// An empty fragment, wherever it stands in the list, changes nothing.
pub proof fn lemma_compose_skips_empty(
    base: Seq<char>,
    before: Seq<Seq<char>>,
    after: Seq<Seq<char>>,
)
    ensures
        compose_spec(base, before + seq![Seq::<char>::empty()] + after) == compose_spec(
            base,
            before + after,
        ),
    decreases after.len(),
{
    let gap = seq![Seq::<char>::empty()];
    if after.len() == 0 {
        assert(before + after =~= before);
        assert((before + gap + after).drop_last() =~= before);
    } else {
        lemma_compose_skips_empty(base, before, after.drop_last());
        assert((before + gap + after).drop_last() =~= before + gap + after.drop_last());
        assert((before + after).drop_last() =~= before + after.drop_last());
    }
}

/// Fragments after the first compose like one list: composing `front` and
/// then `back` onto the result is composing `front + back`.
pub proof fn lemma_compose_in_steps(
    base: Seq<char>,
    front: Seq<Seq<char>>,
    back: Seq<Seq<char>>,
)
    ensures
        compose_spec(compose_spec(base, front), back) == compose_spec(base, front + back),
    decreases back.len(),
{
    if back.len() == 0 {
        assert(front + back =~= front);
    } else {
        lemma_compose_in_steps(base, front, back.drop_last());
        assert((front + back).drop_last() =~= front + back.drop_last());
    }
}

/// Joining tidy strings gives a tidy string.
pub proof fn lemma_join_tidy(acc: Seq<char>, fragment: Seq<char>)
    requires
        is_tidy(acc),
        is_tidy(fragment),
    ensures
        is_tidy(join_fragment(acc, fragment)),
{
    if fragment.len() > 0 && acc.len() > 0 {
        let s = acc + seq![' '] + fragment;
        let n = acc.len() as int;
        assert forall|i: int| 0 < i < s.len() implies !(s[i - 1] == ' ' && #[trigger] s[i]
            == ' ') by {
            if i < n {
                assert(s[i] == acc[i]);
                assert(s[i - 1] == acc[i - 1]);
            } else if i == n {
                assert(s[i - 1] == acc[n - 1]);
            } else if i == n + 1 {
                assert(s[i] == fragment[0]);
            } else {
                assert(s[i] == fragment[i - n - 1]);
                assert(s[i - 1] == fragment[i - n - 2]);
            }
        }
        assert(s[0] == acc[0]);
        assert(s[s.len() - 1] == fragment[fragment.len() - 1]);
    }
}

/// A tidy base and tidy fragments compose to a tidy class string: no space
/// at either end, and none doubled.
pub proof fn lemma_compose_tidy(base: Seq<char>, fragments: Seq<Seq<char>>)
    requires
        is_tidy(base),
        forall|i: int| 0 <= i < fragments.len() ==> is_tidy(#[trigger] fragments[i]),
    ensures
        is_tidy(compose_spec(base, fragments)),
    decreases fragments.len(),
{
    if fragments.len() > 0 {
        lemma_compose_tidy(base, fragments.drop_last());
        lemma_join_tidy(compose_spec(base, fragments.drop_last()), fragments.last());
    }
}

/// The result of a join starts with what was there and holds the fragment.
pub proof fn lemma_join_keeps_both(acc: Seq<char>, fragment: Seq<char>)
    ensures
        acc.is_prefix_of(join_fragment(acc, fragment)),
        occurs_in(fragment, join_fragment(acc, fragment)),
{
    let s = join_fragment(acc, fragment);
    let at: int = if fragment.len() == 0 || acc.len() == 0 {
        0
    } else {
        acc.len() as int + 1
    };
    assert(s.subrange(at, at + fragment.len()) =~= fragment);
}

/// What occurs in a string occurs in every string that starts with it.
pub proof fn lemma_occurs_in_longer(part: Seq<char>, whole: Seq<char>, longer: Seq<char>)
    requires
        occurs_in(part, whole),
        whole.is_prefix_of(longer),
    ensures
        occurs_in(part, longer),
{
    let at = choose|at: int|
        0 <= at && at + part.len() <= whole.len() && #[trigger] whole.subrange(
            at,
            at + part.len(),
        ) == part;
    assert(longer.subrange(at, at + part.len()) =~= whole.subrange(at, at + part.len()));
}

/// Composition drops nothing: the class string starts with the base class
/// and every fragment occurs in it.
pub proof fn lemma_compose_keeps_all(base: Seq<char>, fragments: Seq<Seq<char>>)
    ensures
        base.is_prefix_of(compose_spec(base, fragments)),
        forall|i: int|
            0 <= i < fragments.len() ==> occurs_in(
                #[trigger] fragments[i],
                compose_spec(base, fragments),
            ),
    decreases fragments.len(),
{
    if fragments.len() > 0 {
        let front = fragments.drop_last();
        let before = compose_spec(base, front);
        let whole = compose_spec(base, fragments);
        lemma_compose_keeps_all(base, front);
        lemma_join_keeps_both(before, fragments.last());
        assert forall|i: int| 0 <= i < fragments.len() implies occurs_in(
            #[trigger] fragments[i],
            whole,
        ) by {
            if i < front.len() {
                assert(front[i] == fragments[i]);
                lemma_occurs_in_longer(fragments[i], before, whole);
            }
        }
    }
}

} // verus!
