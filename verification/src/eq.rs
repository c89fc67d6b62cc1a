//! Derivation of the total-equality marker trait.

use vstd::prelude::*;
use crate::marker_trait::{derive_marker_trait, marker_impl_text};
use crate::shape::TypeShape;

verus! {

/// Produces the empty `::core::cmp::Eq` implementation block for the
/// described type.
pub fn derive_eq(input: &TypeShape) -> (r: String)
    ensures
        r@ == marker_impl_text("::core::cmp::Eq"@, *input),
{
    derive_marker_trait(input, "::core::cmp::Eq")
}

} // verus!
