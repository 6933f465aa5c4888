//! The promise a type makes before its variants can be walked by tag.

use crate::width::{lemma_tag_modulus_values, tag_modulus};
use vstd::layout::{layout_of_primitives, size_of};
use vstd::prelude::*;

verus! {

/// May only be implemented for enums with:
///
///   1. No variant parameters whatsoever.
///   2. No index assignment. For example: `enum T { A = 1, B = 2 }`.
///
/// The variants of such an enum carry the tags `0, 1, 2, ...` in the order
/// of their declaration, a value is nothing but its tag, and the tag is what
/// the value's representation holds.
///
/// An implementation inside `verus!` proves the four laws below. Nothing
/// holds an implementation written in ordinary Rust to them, and nothing
/// detects one that breaks them: there they are a promise of the
/// implementor, and what this library proves of a walk reaches as far as the
/// promise is kept.
pub trait AllVariantsTakeNoParameters: Eq + Copy {
    /// How many variants the enum declares.
    spec fn variant_count() -> nat;

    /// The tag of a value.
    spec fn tag_of(self) -> nat;

    /// The variant that carries `tag`.
    spec fn variant_at(tag: nat) -> Self;

    /// Tags start at zero and leave no gap: each is below the number of
    /// variants.
    proof fn tag_in_range(self)
        ensures
            self.tag_of() < Self::variant_count(),
    ;

    /// A value is the variant at its tag: it holds nothing else.
    proof fn value_is_its_tag(self)
        ensures
            Self::variant_at(self.tag_of()) == self,
    ;

    /// Every tag below the number of variants is the tag of a variant.
    proof fn tag_is_inhabited(tag: nat)
        requires
            tag < Self::variant_count(),
        ensures
            Self::variant_at(tag).tag_of() == tag,
    ;

    /// The tags fit the bit patterns of the type's representation.
    proof fn tags_fit_representation()
        ensures
            Self::variant_count() <= tag_modulus(size_of::<Self>()),
    ;

    /// Reads the representation of `self` as an unsigned integer.
    fn to_tag(self) -> (tag: u64)
        ensures
            tag == self.tag_of(),
    ;

    /// Reads `tag` as a value of this type. Only the tag of a declared
    /// variant is the representation of a value.
    fn from_tag(tag: u64) -> (value: Self)
        requires
            tag < Self::variant_count(),
        ensures
            value == Self::variant_at(tag as nat),
    ;
}

/// `bool` is the enum of two variants that the language brings along:
/// `false` with the tag 0 and `true` with the tag 1, in one byte.
impl AllVariantsTakeNoParameters for bool {
    open spec fn variant_count() -> nat {
        2
    }

    open spec fn tag_of(self) -> nat {
        if self {
            1
        } else {
            0
        }
    }

    open spec fn variant_at(tag: nat) -> bool {
        tag != 0
    }

    proof fn tag_in_range(self) {
    }

    proof fn value_is_its_tag(self) {
    }

    proof fn tag_is_inhabited(tag: nat) {
    }

    proof fn tags_fit_representation() {
        broadcast use layout_of_primitives;

        lemma_tag_modulus_values();
    }

    fn to_tag(self) -> (tag: u64) {
        if self {
            1
        } else {
            0
        }
    }

    fn from_tag(tag: u64) -> (value: bool) {
        tag != 0
    }
}

} // verus!
