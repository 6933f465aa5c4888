//! The iterator that walks from one variant to another.

use crate::capability::AllVariantsTakeNoParameters;
use crate::run::{fills_representation, variants_between, walk};
use crate::width::{
    has_supported_width, successor, supported_width, tag_modulus, wrapping_successor,
};
use vstd::layout::size_of;
use vstd::pervasive::runtime_assert;
use vstd::prelude::*;

verus! {

/// An iterator through the variants of `T` from one variant to another, the
/// last included.
///
/// It holds the bit pattern of the value it yields next, the value it stops
/// after, and a latch that closes once that value has been yielded. After the
/// last value the bit pattern may be that of no variant; it is then never
/// read as a value again.
pub struct EnumIter<T: AllVariantsTakeNoParameters> {
    cur: u64,
    end: T,
    done: bool,
}

impl<T: AllVariantsTakeNoParameters> View for EnumIter<T> {
    type V = Seq<T>;

    /// The values still to come, in the order in which `next` yields them,
    /// for an iterator that is on course. Of one that is not, these are the
    /// values at the bit patterns that lie before it; it ceases to be
    /// readable before it has passed them all.
    open spec fn view(&self) -> Seq<T> {
        if self.is_done() {
            Seq::empty()
        } else {
            variants_between::<T>(self.cursor(), self.end().tag_of())
        }
    }
}

impl<T: AllVariantsTakeNoParameters> EnumIter<T> {
    /// The representation of `T` has a width at which a tag can be stepped,
    /// and the current bit pattern is one of that width.
    #[verifier::type_invariant]
    spec fn fits_representation(&self) -> bool {
        &&& supported_width(size_of::<T>())
        &&& self.cur < tag_modulus(size_of::<T>())
    }

    /// The bit pattern of the value that `next` yields next.
    pub closed spec fn cursor(&self) -> nat {
        self.cur as nat
    }

    /// The value after which the iterator is exhausted.
    pub closed spec fn end(&self) -> T {
        self.end
    }

    /// Whether the iterator is exhausted.
    pub closed spec fn is_done(&self) -> bool {
        self.done
    }

    /// The current bit pattern is the tag of a variant, unless the iterator
    /// is exhausted and reads it no more. An iterator that is not readable
    /// has walked past the last variant without meeting its end.
    pub open spec fn readable(&self) -> bool {
        self.is_done() || self.cursor() < T::variant_count()
    }

    /// The iterator is readable and stays so until it is exhausted: its end
    /// is not declared before the current variant, or the variants fill the
    /// representation, so that a walk past the last one wraps to the first.
    pub open spec fn on_course(&self) -> bool {
        self.is_done() || (self.cursor() < T::variant_count() && (self.cursor()
            <= self.end().tag_of() || fills_representation::<T>()))
    }

    /// An iterator whose first value is `start` and whose last is `end`.
    ///
    /// The representation of `T` must be one, two, four or eight bytes wide.
    /// Called on another width by code that was not verified, it panics.
    #[inline]
    pub fn new(start: T, end: T) -> (iter: EnumIter<T>)
        requires
            supported_width(size_of::<T>()),
        ensures
            iter.cursor() == start.tag_of(),
            iter.end() == end,
            !iter.is_done(),
            iter.readable(),
            start.tag_of() <= end.tag_of() || fills_representation::<T>() ==> iter.on_course(),
            iter@ == walk(start, end),
    {
        runtime_assert(has_supported_width::<T>());
        proof {
            start.tag_in_range();
            T::tags_fit_representation();
        }
        EnumIter { cur: start.to_tag(), end, done: false }
    }

    /// Yields the current value and steps to the one after it, or yields
    /// nothing once the end has been yielded.
    ///
    /// The step adds one to the current bit pattern, wrapping at the width
    /// of the representation, and is taken before the latch is set; the
    /// latch closes when the value just yielded, not the one stepped to, is
    /// the end. An exhausted iterator stays as it is.
    #[inline]
    pub fn next(&mut self) -> (item: Option<T>)
        requires
            old(self).readable(),
        ensures
            old(self).is_done() ==> item is None && *final(self) == *old(self),
            !old(self).is_done() ==> item == Some(T::variant_at(old(self).cursor())),
            !old(self).is_done() ==> final(self).cursor() == successor(
                old(self).cursor(),
                tag_modulus(size_of::<T>()),
            ),
            !old(self).is_done() ==> final(self).is_done() == (T::variant_at(old(self).cursor())
                == old(self).end()),
            final(self).end() == old(self).end(),
            !old(self).is_done() ==> item == Some(old(self)@.first()) && final(self)@ == old(
                self,
            )@.drop_first(),
            old(self).on_course() ==> final(self).on_course(),
    {
        proof {
            use_type_invariant(&*self);
        }
        if self.done {
            None
        } else {
            let bits: u64 = self.cur;
            let ret = T::from_tag(bits);
            let end_bits: u64 = self.end.to_tag();
            proof {
                self.end.tag_in_range();
                self.end.value_is_its_tag();
                T::tag_is_inhabited(bits as nat);
                T::tags_fit_representation();
                assert(self@.drop_first() =~= if bits == end_bits {
                    Seq::empty()
                } else {
                    variants_between::<T>(
                        successor(bits as nat, tag_modulus(size_of::<T>())),
                        end_bits as nat,
                    )
                });
            }
            self.cur = wrapping_successor(bits, core::mem::size_of::<T>());
            self.done = bits == end_bits;
            Some(ret)
        }
    }

    /// An iterator is exhausted when no value is still to come, and only
    /// then.
    pub proof fn lemma_exhausted_iff_nothing_left(self)
        ensures
            self.is_done() <==> self@.len() == 0,
    {
    }

    /// Yields every value still to come, in order, by calling `next` until
    /// the iterator is exhausted.
    pub fn collect(self) -> (items: Vec<T>)
        requires
            self.on_course(),
        ensures
            items@ == self@,
    {
        let mut iter = self;
        let mut items: Vec<T> = Vec::new();
        loop
            invariant
                iter.on_course(),
                items@ + iter@ == self@,
            ensures
                items@ == self@,
            decreases iter@.len(),
        {
            match iter.next() {
                Some(item) => {
                    items.push(item);
                },
                None => {
                    break ;
                },
            }
        }
        items
    }
}

/// `enum_iter(Enum::FirstElement, Enum::LastElement)` returns an iterator
/// through the different variants of the enum. `T` must satisfy
/// `AllVariantsTakeNoParameters`, which pretty much just means you built a
/// simple rust enum with no variant parameters and no manual assignment of
/// integer mappings.
pub fn enum_iter<T: AllVariantsTakeNoParameters>(start: T, end: T) -> (iter: EnumIter<T>)
    requires
        supported_width(size_of::<T>()),
    ensures
        iter.cursor() == start.tag_of(),
        iter.end() == end,
        !iter.is_done(),
        iter.readable(),
        start.tag_of() <= end.tag_of() || fills_representation::<T>() ==> iter.on_course(),
        iter@ == walk(start, end),
{
    EnumIter::new(start, end)
}

} // verus!
