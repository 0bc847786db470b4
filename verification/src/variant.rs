//! Variant enumerations: closed sets of stylistic options, each member with
//! its class fragment.

use crate::class::is_tidy;
use vstd::prelude::*;

verus! {

/// Why a text was refused as a variant.
#[derive(Clone, Copy, Debug, PartialEq, Eq, Structural)]
pub enum VariantError {
    /// No member of the enumeration has this class fragment.
    UnknownFragment,
}

/// A closed enumeration of stylistic options. Every member has a fixed class
/// fragment, which may be empty, no two members share one, and one member is
/// the designated default.
pub trait Variant: Sized + Copy {
    /// Every member of the enumeration.
    spec fn members() -> Seq<Self>;

    /// The class fragment of a member.
    spec fn fragment(self) -> Seq<char>;

    /// The member that stands where the caller chose none.
    spec fn designated_default() -> Self;

    /// Every member of the enumeration.
    fn all() -> (out: Vec<Self>)
        ensures
            out@ == Self::members(),
    ;

    /// Resolves a member to its class fragment.
    fn resolve(&self) -> (out: &'static str)
        ensures
            out@ == self.fragment(),
    ;

    /// `members` leaves no member out.
    proof fn lemma_members_complete(v: Self)
        ensures
            Self::members().contains(v),
    ;

    /// A class fragment has no space at either end and none doubled, so that
    /// it composes into a tidy class string.
    proof fn lemma_fragment_tidy(v: Self)
        ensures
            is_tidy(v.fragment()),
    ;

    /// Members with the same class fragment are the same member.
    proof fn lemma_fragments_distinct(a: Self, b: Self)
        requires
            a.fragment() == b.fragment(),
        ensures
            a == b,
    ;
}

/// Exactly one member resolves to the fragment of the designated default:
/// the default itself.
pub proof fn lemma_one_default_fragment<V: Variant>(v: V)
    ensures
        v.fragment() == V::designated_default().fragment() <==> v == V::designated_default(),
{
    if v.fragment() == V::designated_default().fragment() {
        V::lemma_fragments_distinct(v, V::designated_default());
    }
}

/// Whether two texts are the same.
pub fn same_text(a: &str, b: &str) -> (out: bool)
    ensures
        out == (a@ == b@),
{
    let left = String::from_str(a);
    let right = String::from_str(b);
    left == right
}

/// The member that a class fragment stands for, or the refusal of a text
/// that is no member's fragment.
pub open spec fn validate_spec<V: Variant>(fragment: Seq<char>) -> Result<V, VariantError> {
    if exists|v: V| #[trigger] v.fragment() == fragment {
        Ok(choose|v: V| #[trigger] v.fragment() == fragment)
    } else {
        Err(VariantError::UnknownFragment)
    }
}

/// Finds the member that a class fragment stands for. A text that is no
/// member's fragment is refused: no member is put in its place.
pub fn validate<V: Variant>(fragment: &str) -> (out: Result<V, VariantError>)
    ensures
        out == validate_spec::<V>(fragment@),
        out matches Ok(v) ==> v.fragment() == fragment@,
        out is Err ==> forall|v: V| #[trigger] v.fragment() != fragment@,
{
    let all = V::all();
    let mut i: usize = 0;
    while i < all.len()
        invariant
            i <= all.len(),
            all@ == V::members(),
            forall|j: int| 0 <= j < i ==> (#[trigger] all@[j]).fragment() != fragment@,
        decreases all.len() - i,
    {
        if same_text(all[i].resolve(), fragment) {
            proof {
                let found = all@[i as int];
                assert(found.fragment() == fragment@);
                match validate_spec::<V>(fragment@) {
                    Ok(chosen) => {
                        V::lemma_fragments_distinct(chosen, found);
                    },
                    Err(_) => {},
                }
            }
            return Ok(all[i]);
        }
        i += 1;
    }
    proof {
        assert forall|v: V| #[trigger] v.fragment() != fragment@ by {
            V::lemma_members_complete(v);
            let j = choose|j: int| 0 <= j < all@.len() && all@[j] == v;
            assert(all@[j].fragment() != fragment@);
        }
    }
    Err(VariantError::UnknownFragment)
}

/// Validation undoes resolution: the fragment of a member is accepted, and
/// stands for that member alone.
pub proof fn lemma_validate_round_trip<V: Variant>(v: V)
    ensures
        validate_spec::<V>(v.fragment()) == Ok::<V, VariantError>(v),
{
    let fragment = v.fragment();
    assert(exists|w: V| #[trigger] w.fragment() == fragment) by {
        assert(v.fragment() == fragment);
    }
    match validate_spec::<V>(fragment) {
        Ok(chosen) => {
            V::lemma_fragments_distinct(chosen, v);
        },
        Err(_) => {},
    }
}

} // verus!
