//! The marker strategy: an implementation block with no body at all, usable
//! for any capability trait that carries no methods.

use vstd::prelude::*;
use crate::header::{impl_block, render_impl_block};
use crate::shape::TypeShape;

verus! {

/// The empty implementation block of `marker` for the described type.
pub open spec fn marker_impl_text(marker: Seq<char>, input: TypeShape) -> Seq<char> {
    impl_block(marker, input, Seq::empty())
}

/// Produces the empty implementation block of the marker trait at `marker`
/// for the described type.  Works for every shape; no validation applies.
pub fn derive_marker_trait(input: &TypeShape, marker: &str) -> (r: String)
    ensures
        r@ == marker_impl_text(marker@, *input),
{
    let body = String::new();
    render_impl_block(marker, input, &body)
}

} // verus!
