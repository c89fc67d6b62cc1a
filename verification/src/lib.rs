//! Generation of standard trait implementations from the shape of a type.
//!
//! The crate takes a normalized description of a struct, enum or union — its
//! name, its generic parameters and the arrangement of its fields — and
//! produces, as plain source text, the body of one trait implementation per
//! request: structural equality, three-way ordering, cloning, marker traits,
//! hashing, debug formatting and default construction.  Every renderer comes
//! with a contract pinning the produced text exactly, and a small value model
//! gives the meaning of each produced method body, against which the
//! behavioural laws (reflexivity of equality, rank-based cross-variant
//! ordering, discriminant-first hashing, and the like) are proved.
//!
//! All renderers emit one line of source text in a fixed convention: list
//! entries keep their trailing comma and are separated by single spaces, and
//! an implementation block reads
//! `#[automatically_derived] impl<..> Trait for Name<..> where .., { .. }`.
//! The spec functions beside each renderer pin that text character by
//! character.

pub mod clone;
pub mod copy;
pub mod debug;
pub mod default;
pub mod eq;
pub mod hash;
pub mod header;
pub mod laws;
pub mod marker_trait;
pub mod partial_eq;
pub mod partial_ord;
pub mod semantics;
pub mod shape;
pub mod text;
pub mod utilities;
pub mod walker;
