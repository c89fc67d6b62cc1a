//! The cloning strategy: renders a `clone` body that reconstructs the value
//! by duplicating every field and re-assembling the same shape.  A union is
//! reproduced by a bitwise copy of the whole value.

use vstd::prelude::*;
use vstd::string::StringExecFns;
use crate::header::{impl_block, render_impl_block};
use crate::shape::{FieldList, TypeKind, TypeShape, VariantDecl};
use crate::text::{spec_join, views_of, join_strings};
use crate::walker::{
    construction,
    field_key,
    field_keys,
    render_construction,
    render_pattern,
    variant_pattern,
};

verus! {

/// One field of a struct construction: the field duplicated out of `self.`.
pub open spec fn struct_frag(fields: FieldList, i: int) -> Seq<char> {
    match fields {
        FieldList::Named(_) => field_key(fields, i) + ": ::core::clone::Clone::clone(&self."@
            + field_key(fields, i) + "),"@,
        FieldList::Positional(_) => "::core::clone::Clone::clone(&self."@ + field_key(fields, i)
            + "),"@,
        FieldList::Empty => Seq::empty(),
    }
}

/// One field of a variant construction: the pattern-bound variable
/// duplicated.
pub open spec fn variant_frag(fields: FieldList, i: int) -> Seq<char> {
    match fields {
        FieldList::Named(_) => field_key(fields, i) + ": ::core::clone::Clone::clone("@
            + field_key(fields, i) + "),"@,
        FieldList::Positional(_) => "::core::clone::Clone::clone(field_"@ + field_key(fields, i)
            + "),"@,
        FieldList::Empty => Seq::empty(),
    }
}

/// The whole `clone` body for a struct with the given fields.
pub open spec fn struct_body(fields: FieldList) -> Seq<char> {
    construction("Self"@, fields, Seq::new(fields.spec_len(), |i: int| struct_frag(fields, i)))
}

/// One match arm of an enum body: destructure a variant, rebuild it.
pub open spec fn variant_arm(v: VariantDecl) -> Seq<char> {
    variant_pattern(v.name@, v.fields, "field_"@, false) + " => "@ + construction(
        "Self::"@ + v.name@,
        v.fields,
        Seq::new(v.fields.spec_len(), |i: int| variant_frag(v.fields, i)),
    )
}

/// The whole `clone` body for the given kind.
pub open spec fn clone_body(kind: TypeKind) -> Seq<char> {
    match kind {
        TypeKind::Struct(fields) => struct_body(fields),
        TypeKind::Enum(vs) => if vs@.len() == 0 {
            "match *self {}"@
        } else {
            "match self { "@ + spec_join(
                Seq::new(vs@.len(), |i: int| variant_arm(vs@[i]) + ","@),
                " "@,
            ) + " }"@
        },
        TypeKind::Union => "*self"@,
    }
}

/// The whole generated implementation block.
pub open spec fn clone_impl_text(input: TypeShape) -> Seq<char> {
    impl_block(
        "::core::clone::Clone"@,
        input,
        "fn clone(&self) -> Self { "@ + clone_body(input.kind) + " }"@,
    )
}

/// Renders the struct `clone` body; see [`struct_body`].
fn render_struct_body(fields: &FieldList) -> (r: String)
    ensures
        r@ == struct_body(*fields),
{
    let keys = field_keys(fields);
    let n = keys.len();
    let mut parts: Vec<String> = Vec::new();
    for j in 0..n
        invariant
            n == keys@.len(),
            n as nat == fields.spec_len(),
            forall|i: int| 0 <= i < n ==> keys@[i]@ == field_key(*fields, i),
            parts@.len() == j,
            forall|i: int| 0 <= i < j ==> parts@[i]@ == struct_frag(*fields, i),
    {
        let mut p = String::new();
        match fields {
            FieldList::Named(_) => {
                p.append(keys[j].as_str());
                p.append(": ::core::clone::Clone::clone(&self.");
                p.append(keys[j].as_str());
                p.append("),");
            },
            FieldList::Positional(_) => {
                p.append("::core::clone::Clone::clone(&self.");
                p.append(keys[j].as_str());
                p.append("),");
            },
            FieldList::Empty => {},
        }
        parts.push(p);
    }
    proof {
        assert(views_of(parts@) =~= Seq::new(fields.spec_len(), |i: int| struct_frag(*fields, i)));
    }
    render_construction("Self".to_owned(), fields, &parts)
}

/// Renders one variant's match arm; see [`variant_arm`].
fn render_variant_arm(v: &VariantDecl) -> (r: String)
    ensures
        r@ == variant_arm(*v),
{
    let keys = field_keys(&v.fields);
    let n = keys.len();
    let mut parts: Vec<String> = Vec::new();
    for j in 0..n
        invariant
            n == keys@.len(),
            n as nat == v.fields.spec_len(),
            forall|i: int| 0 <= i < n ==> keys@[i]@ == field_key(v.fields, i),
            parts@.len() == j,
            forall|i: int| 0 <= i < j ==> parts@[i]@ == variant_frag(v.fields, i),
    {
        let mut p = String::new();
        match &v.fields {
            FieldList::Named(_) => {
                p.append(keys[j].as_str());
                p.append(": ::core::clone::Clone::clone(");
                p.append(keys[j].as_str());
                p.append("),");
            },
            FieldList::Positional(_) => {
                p.append("::core::clone::Clone::clone(field_");
                p.append(keys[j].as_str());
                p.append("),");
            },
            FieldList::Empty => {},
        }
        parts.push(p);
    }
    proof {
        assert(views_of(parts@) =~= Seq::new(
            v.fields.spec_len(),
            |i: int| variant_frag(v.fields, i),
        ));
    }
    let mut out = render_pattern(&v.name, &v.fields, "field_", false);
    out.append(" => ");
    let mut head = "Self::".to_owned();
    head.append(v.name.as_str());
    let ctor = render_construction(head, &v.fields, &parts);
    out.append(ctor.as_str());
    out
}

/// Produces the `::core::clone::Clone` implementation block for the
/// described type.  Cloning performs no shape validation and always
/// succeeds.
pub fn derive_clone(input: &TypeShape) -> (r: String)
    ensures
        r@ == clone_impl_text(*input),
{
    let body = match &input.kind {
        TypeKind::Struct(fields) => render_struct_body(fields),
        TypeKind::Enum(vs) => {
            let n = vs.len();
            if n == 0 {
                "match *self {}".to_owned()
            } else {
                let mut parts: Vec<String> = Vec::new();
                for j in 0..n
                    invariant
                        n == vs@.len(),
                        parts@.len() == j,
                        forall|i: int| 0 <= i < j ==> parts@[i]@ == variant_arm(vs@[i]) + ","@,
                {
                    let mut arm = render_variant_arm(&vs[j]);
                    arm.append(",");
                    parts.push(arm);
                }
                proof {
                    assert(views_of(parts@) =~= Seq::new(
                        vs@.len(),
                        |i: int| variant_arm(vs@[i]) + ","@,
                    ));
                }
                let mut out = "match self { ".to_owned();
                let joined = join_strings(&parts, " ");
                out.append(joined.as_str());
                out.append(" }");
                out
            }
        },
        TypeKind::Union => "*self".to_owned(),
    };
    let mut method = "fn clone(&self) -> Self { ".to_owned();
    method.append(body.as_str());
    method.append(" }");
    render_impl_block("::core::clone::Clone", input, &method)
}

} // verus!
