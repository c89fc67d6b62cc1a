//! Derivation of the bitwise-copy marker trait.

use vstd::prelude::*;
use crate::marker_trait::{derive_marker_trait, marker_impl_text};
use crate::shape::TypeShape;

verus! {

/// Produces the empty `::core::marker::Copy` implementation block for the
/// described type.
pub fn derive_copy(input: &TypeShape) -> (r: String)
    ensures
        r@ == marker_impl_text("::core::marker::Copy"@, *input),
{
    derive_marker_trait(input, "::core::marker::Copy")
}

} // verus!
