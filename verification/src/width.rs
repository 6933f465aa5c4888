//! The representation widths an enum's tag may have, and the wrapping
//! increment at each of them.

use vstd::arithmetic::power2::{lemma2_to64, pow2};
use vstd::layout::size_of;
use vstd::pervasive::unreached;
use vstd::prelude::*;

verus! {

/// A tag is stepped with unsigned arithmetic of its own width, which exists
/// for representations of one, two, four and eight bytes.
pub open spec fn supported_width(width: nat) -> bool {
    width == 1 || width == 2 || width == 4 || width == 8
}

/// How many bit patterns a representation of `width` bytes has.
pub open spec fn tag_modulus(width: nat) -> nat {
    pow2(8 * width)
}

/// The bit pattern that follows `bits` when one is added among `modulus`
/// patterns: the next integer, or zero after the last pattern.
pub open spec fn successor(bits: nat, modulus: nat) -> nat {
    if bits + 1 >= modulus {
        0
    } else {
        bits + 1
    }
}

/// The number of bit patterns at each supported width.
pub proof fn lemma_tag_modulus_values()
    ensures
        tag_modulus(1) == 0x100,
        tag_modulus(2) == 0x1_0000,
        tag_modulus(4) == 0x1_0000_0000,
        tag_modulus(8) == 0x1_0000_0000_0000_0000,
{
    lemma2_to64();
}

/// Whether the representation of `T` has a width at which a tag can be
/// stepped.
pub fn has_supported_width<T>() -> (supported: bool)
    ensures
        supported == supported_width(size_of::<T>()),
{
    let width: usize = core::mem::size_of::<T>();
    width == 1 || width == 2 || width == 4 || width == 8
}

/// Adds one to `bits` in the unsigned integer type that is `width` bytes
/// wide, wrapping to zero at that type's maximum.
pub fn wrapping_successor(bits: u64, width: usize) -> (next: u64)
    requires
        supported_width(width as nat),
        bits < tag_modulus(width as nat),
    ensures
        next == successor(bits as nat, tag_modulus(width as nat)),
{
    proof {
        lemma_tag_modulus_values();
    }
    match width {
        1 => (bits as u8).wrapping_add(1) as u64,
        2 => (bits as u16).wrapping_add(1) as u64,
        4 => (bits as u32).wrapping_add(1) as u64,
        8 => bits.wrapping_add(1),
        _ => unreached(),
    }
}

} // verus!
