//! What a walk from one variant to another passes through.

use crate::capability::AllVariantsTakeNoParameters;
use crate::width::tag_modulus;
use vstd::layout::size_of;
use vstd::prelude::*;

verus! {

/// Every bit pattern of the representation of `T` is the tag of a variant,
/// so that the increment of the last tag wraps to the first.
pub open spec fn fills_representation<T: AllVariantsTakeNoParameters>() -> bool {
    T::variant_count() == tag_modulus(size_of::<T>())
}

/// How many increments lead from the tag `from` to the tag `to`, both below
/// `modulus`, where the increment wraps to zero after the last of `modulus`
/// bit patterns.
pub open spec fn distance(from: nat, to: nat, modulus: nat) -> nat {
    if from <= to {
        (to - from) as nat
    } else {
        (modulus - from + to) as nat
    }
}

/// The bit pattern reached from `from` by `steps` wrapping increments, for
/// `from < modulus` and `steps <= modulus`.
pub open spec fn tag_after(from: nat, steps: nat, modulus: nat) -> nat {
    if from + steps >= modulus {
        (from + steps - modulus) as nat
    } else {
        from + steps
    }
}

/// The values at the bit patterns from `from` to `to`, in the order in which
/// wrapping increments pass them: the variant at `from` first, the variant
/// at `to` last.
pub open spec fn variants_between<T: AllVariantsTakeNoParameters>(from: nat, to: nat) -> Seq<T> {
    let modulus = tag_modulus(size_of::<T>());
    Seq::new(
        distance(from, to, modulus) + 1,
        |i: int| T::variant_at(tag_after(from, i as nat, modulus)),
    )
}

/// The values that a walk from `start` to `end` yields, in order. The walk
/// meets its end where `start` is not declared after `end`, or where the
/// variants fill the representation.
pub open spec fn walk<T: AllVariantsTakeNoParameters>(start: T, end: T) -> Seq<T> {
    variants_between::<T>(start.tag_of(), end.tag_of())
}

/// A walk from a variant to one that is not declared before it yields one
/// value for each tag from the first to the last, in ascending order of
/// their tags, and ends with the variant it was to reach.
pub proof fn lemma_walk_ascends<T: AllVariantsTakeNoParameters>(start: T, end: T)
    requires
        start.tag_of() <= end.tag_of(),
    ensures
        walk(start, end).len() == end.tag_of() - start.tag_of() + 1,
        forall|i: int|
            0 <= i <= end.tag_of() - start.tag_of() ==> #[trigger] walk(start, end)[i]
                == T::variant_at((start.tag_of() + i) as nat),
        forall|i: int|
            0 <= i <= end.tag_of() - start.tag_of() ==> (#[trigger] walk(start, end)[i]).tag_of()
                == start.tag_of() + i,
        walk(start, end).first() == start,
        walk(start, end).last() == end,
{
    let a = start.tag_of();
    let b = end.tag_of();
    let modulus = tag_modulus(size_of::<T>());
    end.tag_in_range();
    T::tags_fit_representation();
    assert forall|i: int| 0 <= i <= b - a implies #[trigger] walk(start, end)[i] == T::variant_at(
        (a + i) as nat,
    ) && walk(start, end)[i].tag_of() == a + i by {
        assert(tag_after(a, i as nat, modulus) == a + i);
        T::tag_is_inhabited((a + i) as nat);
    }
    start.value_is_its_tag();
    end.value_is_its_tag();
}

/// In a type whose variants fill its representation, a walk from a variant
/// to one declared before it climbs to the last variant, wraps to the first
/// and climbs on to the variant it was to reach.
pub proof fn lemma_walk_wraps<T: AllVariantsTakeNoParameters>(start: T, end: T)
    requires
        fills_representation::<T>(),
        start.tag_of() > end.tag_of(),
    ensures
        walk(start, end).len() == T::variant_count() - start.tag_of() + end.tag_of() + 1,
        forall|i: int|
            0 <= i < T::variant_count() - start.tag_of() ==> (#[trigger] walk(
                start,
                end,
            )[i]).tag_of() == start.tag_of() + i,
        forall|i: int|
            T::variant_count() - start.tag_of() <= i <= T::variant_count() - start.tag_of()
                + end.tag_of() ==> (#[trigger] walk(start, end)[i]).tag_of() == i - (
            T::variant_count() - start.tag_of()),
        walk(start, end).first() == start,
        walk(start, end).last() == end,
{
    let a = start.tag_of();
    let b = end.tag_of();
    let modulus = tag_modulus(size_of::<T>());
    start.tag_in_range();
    assert forall|i: int| 0 <= i < modulus - a implies (#[trigger] walk(start, end)[i]).tag_of()
        == a + i by {
        assert(tag_after(a, i as nat, modulus) == a + i);
        T::tag_is_inhabited((a + i) as nat);
    }
    assert forall|i: int| modulus - a <= i <= modulus - a + b implies (#[trigger] walk(
        start,
        end,
    )[i]).tag_of() == i - (modulus - a) by {
        assert(tag_after(a, i as nat, modulus) == i - (modulus - a));
        T::tag_is_inhabited((i - (modulus - a)) as nat);
    }
    start.value_is_its_tag();
    end.value_is_its_tag();
}

/// A walk from the first variant to the last yields every variant once, in
/// the order of declaration.
pub proof fn lemma_walk_covers_enum<T: AllVariantsTakeNoParameters>()
    requires
        T::variant_count() > 0,
    ensures
        walk(T::variant_at(0), T::variant_at((T::variant_count() - 1) as nat)) == Seq::new(
            T::variant_count(),
            |i: int| T::variant_at(i as nat),
        ),
{
    let n = T::variant_count();
    T::tag_is_inhabited(0);
    T::tag_is_inhabited((n - 1) as nat);
    T::tags_fit_representation();
    assert(walk(T::variant_at(0), T::variant_at((n - 1) as nat)) =~= Seq::new(
        n,
        |i: int| T::variant_at(i as nat),
    ));
}

/// A walk from a variant to itself yields that variant and nothing else.
pub proof fn lemma_walk_to_self<T: AllVariantsTakeNoParameters>(value: T)
    ensures
        walk(value, value) == seq![value],
{
    value.tag_in_range();
    value.value_is_its_tag();
    T::tags_fit_representation();
    assert(walk(value, value) =~= seq![value]);
}

} // verus!
