//! Iteration over the variants of a field-less enum, from one variant to
//! another, by stepping through their integer tags.
//!
//! A type opts in by implementing [`AllVariantsTakeNoParameters`], which
//! says how its values read as tags and back. [`enum_iter`] then walks from
//! a first variant to a last one: each step adds one to the tag, in unsigned
//! arithmetic of the width of the type's representation.
//!
//! - `capability`: the trait, its model of a type's variants, and its laws.
//! - `width`: the supported widths and the wrapping increment at each.
//! - `run`: the sequence of values that a walk yields, and what holds of it.
//! - `iter`: the iterator itself.

pub mod capability;
pub mod iter;
pub mod run;
pub mod width;

pub use crate::capability::AllVariantsTakeNoParameters;
pub use crate::iter::{enum_iter, EnumIter};
