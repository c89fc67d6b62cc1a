//! The default-construction strategy: renders a `default` body that builds a
//! value by defaulting every field.  For an enum, exactly one variant must
//! carry the default marker; that variant is built and all others are
//! ignored.  A union is built as the all-bits-zero value, the only
//! shape-agnostic choice.

use vstd::prelude::*;
use vstd::string::StringExecFns;
use crate::header::{impl_block, render_impl_block};
use crate::shape::{Diagnostic, FieldList, TypeKind, TypeShape, VariantDecl, marked_count,
    marked_count_upto};
use crate::text::views_of;
use crate::walker::{construction, field_key, field_keys, render_construction};

verus! {

/// One field of the construction: the field's name bound to a fresh default,
/// or a bare default for a positional field.
pub open spec fn ctor_frag(fields: FieldList, i: int) -> Seq<char> {
    match fields {
        FieldList::Named(_) => field_key(fields, i) + ": ::core::default::Default::default(),"@,
        FieldList::Positional(_) => "::core::default::Default::default(),"@,
        FieldList::Empty => Seq::empty(),
    }
}

/// The construction expression defaulting every field behind `head`.
pub open spec fn ctor_text(head: Seq<char>, fields: FieldList) -> Seq<char> {
    construction(head, fields, Seq::new(fields.spec_len(), |i: int| ctor_frag(fields, i)))
}

/// The position of the first variant carrying the default marker, scanning
/// from `i`; the variant count when none is marked.
pub open spec fn first_marked_from(vs: Seq<VariantDecl>, i: int) -> int
    decreases vs.len() - i,
{
    if i < 0 || i >= vs.len() {
        vs.len() as int
    } else if vs[i].is_default_marked {
        i
    } else {
        first_marked_from(vs, i + 1)
    }
}

/// The whole `default` body for the given kind, meaningful only when the
/// default-marking invariant holds for enums.
pub open spec fn default_body(kind: TypeKind) -> Seq<char> {
    match kind {
        TypeKind::Struct(fields) => ctor_text("Self"@, fields),
        TypeKind::Enum(vs) => ctor_text(
            "Self::"@ + vs@[first_marked_from(vs@, 0)].name@,
            vs@[first_marked_from(vs@, 0)].fields,
        ),
        TypeKind::Union => "::core::mem::zeroed()"@,
    }
}

/// The whole generated implementation block.
pub open spec fn default_impl_text(input: TypeShape) -> Seq<char> {
    impl_block(
        "::core::default::Default"@,
        input,
        "fn default() -> Self { "@ + default_body(input.kind) + " }"@,
    )
}

/// Whether the described type violates the default-marking invariant: an
/// enum with zero or with two or more marked variants.
pub open spec fn marking_invalid(kind: TypeKind) -> bool {
    match kind {
        TypeKind::Enum(vs) => marked_count(vs@) != 1,
        _ => false,
    }
}

/// Renders the construction expression defaulting every field; see
/// [`ctor_text`].
fn render_ctor(head: String, fields: &FieldList) -> (r: String)
    ensures
        r@ == ctor_text(head@, *fields),
{
    let keys = field_keys(fields);
    let n = keys.len();
    let mut parts: Vec<String> = Vec::new();
    for j in 0..n
        invariant
            n == keys@.len(),
            n as nat == fields.spec_len(),
            forall|i: int| 0 <= i < n ==> keys@[i]@ == field_key(*fields, i),
            parts@.len() == j,
            forall|i: int| 0 <= i < j ==> parts@[i]@ == ctor_frag(*fields, i),
    {
        let mut p = String::new();
        match fields {
            FieldList::Named(_) => {
                p.append(keys[j].as_str());
                p.append(": ::core::default::Default::default(),");
            },
            FieldList::Positional(_) => {
                p.append("::core::default::Default::default(),");
            },
            FieldList::Empty => {},
        }
        parts.push(p);
    }
    proof {
        assert(views_of(parts@) =~= Seq::new(fields.spec_len(), |i: int| ctor_frag(*fields, i)));
    }
    render_construction(head, fields, &parts)
}

/// Finds the first marked variant and counts all marked variants.
pub(crate) fn scan_marked(vs: &Vec<VariantDecl>) -> (r: (usize, usize))
    ensures
        r.0 as int == marked_count(vs@),
        r.1 as int == first_marked_from(vs@, 0),
        r.0 > 0 ==> r.1 < vs@.len(),
{
    let n = vs.len();
    let mut count: usize = 0;
    let mut first: usize = n;
    for j in 0..n
        invariant
            n == vs@.len(),
            count as int == marked_count_upto(vs@, j as int),
            count <= j,
            if count == 0 {
                first == n && first_marked_from(vs@, 0) == first_marked_from(vs@, j as int)
            } else {
                first < j && first as int == first_marked_from(vs@, 0)
            },
    {
        if vs[j].is_default_marked {
            if count == 0 {
                first = j;
                proof {
                    assert(first_marked_from(vs@, j as int) == j);
                }
            }
            count = count + 1;
        } else {
            proof {
                assert(first_marked_from(vs@, j as int) == first_marked_from(vs@, j + 1));
            }
        }
    }
    proof {
        if count == 0 {
            assert(first_marked_from(vs@, n as int) == n as int);
        }
    }
    (count, first)
}

/// Produces the `::core::default::Default` implementation block for the
/// described type, or rejects an enum whose variants do not carry exactly
/// one default marker.
pub fn derive_default(input: &TypeShape) -> (r: Result<String, Diagnostic>)
    ensures
        (r is Err) == marking_invalid(input.kind),
        r matches Ok(code) ==> code@ == default_impl_text(*input),
        r matches Err(d) ==> d.anchor@ == input.name@ && d.message@
            == "Use a single `#[default]` attribute to mark a variant as the default one."@,
{
    let body = match &input.kind {
        TypeKind::Struct(fields) => render_ctor("Self".to_owned(), fields),
        TypeKind::Enum(vs) => {
            let (count, first) = scan_marked(vs);
            if count != 1 {
                return Err(
                    Diagnostic {
                        anchor: input.name.clone(),
                        message: "Use a single `#[default]` attribute to mark a variant as the default one.".to_owned(),
                    },
                );
            }
            let mut head = "Self::".to_owned();
            head.append(vs[first].name.as_str());
            render_ctor(head, &vs[first].fields)
        },
        TypeKind::Union => "::core::mem::zeroed()".to_owned(),
    };
    let mut method = "fn default() -> Self { ".to_owned();
    method.append(body.as_str());
    method.append(" }");
    Ok(render_impl_block("::core::default::Default", input, &method))
}

} // verus!
