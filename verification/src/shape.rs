//! The normalized description of one declared type, as the renderers consume
//! it: the type's name, its generic parameters (kept verbatim), and the
//! arrangement of its fields or variants.

use vstd::prelude::*;

verus! {

/// Generic parameters of a declared type: the ordered parameter names and the
/// `where`-constraints, both round-tripped verbatim into the output header.
pub struct GenericsDecl {
    pub params: Vec<String>,
    pub where_clauses: Vec<String>,
}

/// The arrangement of the fields of a struct or of one enum variant.
///
/// Order is significant and is preserved exactly as declared: it determines
/// both the order patterns bind fields and the order per-field operations are
/// combined.
pub enum FieldList {
    /// Named fields, in declaration order.
    Named(Vec<String>),
    /// Positional (tuple) fields; only their count matters.
    Positional(usize),
    /// A unit shape: no field list at all.
    Empty,
}

/// One alternative of an enum, with its own field arrangement and an optional
/// marker electing it as the default variant.
pub struct VariantDecl {
    pub name: String,
    pub fields: FieldList,
    pub is_default_marked: bool,
}

/// The structural classification of the declared type.
pub enum TypeKind {
    Struct(FieldList),
    Enum(Vec<VariantDecl>),
    Union,
}

/// A normalized description of one declared type.  Immutable once produced;
/// consumed read-only by one generation request.
pub struct TypeShape {
    pub name: String,
    pub generics: GenericsDecl,
    pub kind: TypeKind,
}

/// A failed generation request: a message together with the anchor it should
/// be reported at (the declared type's name, when nothing more specific
/// applies).
#[derive(Debug)]
pub struct Diagnostic {
    pub anchor: String,
    pub message: String,
}

impl FieldList {
    /// How many fields the arrangement holds.
    pub open spec fn spec_len(self) -> nat {
        match self {
            FieldList::Named(names) => names@.len(),
            FieldList::Positional(n) => n as nat,
            FieldList::Empty => 0,
        }
    }

    /// How many fields the arrangement holds.
    pub fn len(&self) -> (n: usize)
        ensures
            n as nat == self.spec_len(),
    {
        match self {
            FieldList::Named(names) => names.len(),
            FieldList::Positional(n) => *n,
            FieldList::Empty => 0,
        }
    }
}

impl TypeShape {
    /// Whether the described type is a raw union.
    pub open spec fn spec_is_union(self) -> bool {
        self.kind is Union
    }
}

/// The number of variants of `vs` whose default marker is set, among the
/// first `n`.
pub open spec fn marked_count_upto(vs: Seq<VariantDecl>, n: int) -> int
    decreases n,
{
    if n <= 0 {
        0
    } else {
        marked_count_upto(vs, n - 1) + if vs[n - 1].is_default_marked {
            1int
        } else {
            0int
        }
    }
}

/// The number of variants of `vs` whose default marker is set.
pub open spec fn marked_count(vs: Seq<VariantDecl>) -> int {
    marked_count_upto(vs, vs.len() as int)
}

} // verus!
