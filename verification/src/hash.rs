//! The hashing strategy: renders a `hash` body that feeds every field into
//! the running hasher state in declaration order.  When an enum has two or
//! more variants, the variant discriminant is fed in first, before any field;
//! a single-variant enum needs no discriminant.  Unions are rejected.

use vstd::prelude::*;
use vstd::string::StringExecFns;
use crate::header::{impl_block, render_impl_block};
use crate::shape::{Diagnostic, FieldList, TypeKind, TypeShape, VariantDecl};
use crate::text::{spec_join, views_of, join_strings};
use crate::walker::{field_key, field_keys, variant_pattern, render_pattern};

verus! {

/// One mix-in statement of a struct body, reading the field through `self.`.
pub open spec fn struct_frag(fields: FieldList, i: int) -> Seq<char> {
    "::core::hash::Hash::hash(&self."@ + field_key(fields, i) + ", state);"@
}

/// One mix-in statement of a variant arm, reading the pattern-bound
/// `field_`-prefixed variable.
pub open spec fn variant_frag(fields: FieldList, i: int) -> Seq<char> {
    "::core::hash::Hash::hash(field_"@ + field_key(fields, i) + ", state);"@
}

/// One match arm of an enum body: destructure the variant, mix in its own
/// fields.
pub open spec fn variant_arm(v: VariantDecl) -> Seq<char> {
    variant_pattern(v.name@, v.fields, "field_"@, true) + " => "@ + (if v.fields.spec_len() == 0 {
        "{}"@
    } else {
        "{ "@ + spec_join(
            Seq::new(v.fields.spec_len(), |i: int| variant_frag(v.fields, i)),
            " "@,
        ) + " }"@
    })
}

/// The whole `hash` body for the given kind; unions never reach here.  An
/// empty struct hashes nothing and the body is empty.
pub open spec fn hash_body(kind: TypeKind) -> Seq<char> {
    match kind {
        TypeKind::Struct(fields) => spec_join(
            Seq::new(fields.spec_len(), |i: int| struct_frag(fields, i)),
            " "@,
        ),
        TypeKind::Enum(vs) => if vs@.len() == 0 {
            "match *self {}"@
        } else if vs@.len() == 1 {
            "match self { "@ + variant_arm(vs@[0]) + ", }"@
        } else {
            "::core::hash::Hash::hash(&::core::mem::discriminant(self), state); match self { "@
                + spec_join(Seq::new(vs@.len(), |i: int| variant_arm(vs@[i]) + ","@), " "@)
                + " }"@
        },
        TypeKind::Union => Seq::empty(),
    }
}

/// The generated method around the body; an empty body collapses the braces.
pub open spec fn method_text(kind: TypeKind) -> Seq<char> {
    if hash_body(kind).len() == 0 {
        "fn hash<H: ::core::hash::Hasher>(&self, state: &mut H) {}"@
    } else {
        "fn hash<H: ::core::hash::Hasher>(&self, state: &mut H) { "@ + hash_body(kind) + " }"@
    }
}

/// The whole generated implementation block.
pub open spec fn hash_impl_text(input: TypeShape) -> Seq<char> {
    impl_block("::core::hash::Hash"@, input, method_text(input.kind))
}

/// Renders the struct `hash` body; see [`hash_body`].
fn render_struct_body(fields: &FieldList) -> (r: String)
    ensures
        r@ == spec_join(Seq::new(fields.spec_len(), |i: int| struct_frag(*fields, i)), " "@),
{
    let keys = field_keys(fields);
    let n = keys.len();
    let mut parts: Vec<String> = Vec::new();
    for j in 0..n
        invariant
            n == keys@.len(),
            n as nat == fields.spec_len(),
            forall|i: int| 0 <= i < n ==> keys@[i]@ == field_key(*fields, i),
            parts@.len() == j,
            forall|i: int| 0 <= i < j ==> parts@[i]@ == struct_frag(*fields, i),
    {
        let mut p = "::core::hash::Hash::hash(&self.".to_owned();
        p.append(keys[j].as_str());
        p.append(", state);");
        parts.push(p);
    }
    proof {
        assert(views_of(parts@) =~= Seq::new(fields.spec_len(), |i: int| struct_frag(*fields, i)));
    }
    join_strings(&parts, " ")
}

/// Renders one variant's match arm; see [`variant_arm`].
fn render_variant_arm(v: &VariantDecl) -> (r: String)
    ensures
        r@ == variant_arm(*v),
{
    let mut out = render_pattern(&v.name, &v.fields, "field_", true);
    out.append(" => ");
    let n = v.fields.len();
    if n == 0 {
        out.append("{}");
        return out;
    }
    let keys = field_keys(&v.fields);
    let mut parts: Vec<String> = Vec::new();
    for j in 0..n
        invariant
            n == keys@.len(),
            n as nat == v.fields.spec_len(),
            forall|i: int| 0 <= i < n ==> keys@[i]@ == field_key(v.fields, i),
            parts@.len() == j,
            forall|i: int| 0 <= i < j ==> parts@[i]@ == variant_frag(v.fields, i),
    {
        let mut p = "::core::hash::Hash::hash(field_".to_owned();
        p.append(keys[j].as_str());
        p.append(", state);");
        parts.push(p);
    }
    proof {
        assert(views_of(parts@) =~= Seq::new(
            v.fields.spec_len(),
            |i: int| variant_frag(v.fields, i),
        ));
    }
    out.append("{ ");
    let joined = join_strings(&parts, " ");
    out.append(joined.as_str());
    out.append(" }");
    out
}

/// Produces the `::core::hash::Hash` implementation block for the described
/// type, or rejects a union, whose fields cannot be enumerated safely.
pub fn derive_hash(input: &TypeShape) -> (r: Result<String, Diagnostic>)
    ensures
        (r is Err) == input.spec_is_union(),
        r matches Ok(code) ==> code@ == hash_impl_text(*input),
        r matches Err(d) ==> d.anchor@ == input.name@ && d.message@
            == "Cannot derive `Hash` on a `union`."@,
{
    let body = match &input.kind {
        TypeKind::Struct(fields) => render_struct_body(fields),
        TypeKind::Enum(vs) => {
            let n = vs.len();
            if n == 0 {
                "match *self {}".to_owned()
            } else if n == 1 {
                let mut out = "match self { ".to_owned();
                let arm = render_variant_arm(&vs[0]);
                out.append(arm.as_str());
                out.append(", }");
                out
            } else {
                let mut parts: Vec<String> = Vec::new();
                for j in 0..n
                    invariant
                        n == vs@.len(),
                        parts@.len() == j,
                        forall|i: int| 0 <= i < j ==> parts@[i]@ == variant_arm(vs@[i]) + ","@,
                {
                    let mut arm = render_variant_arm(&vs[j]);
                    arm.append(",");
                    parts.push(arm);
                }
                proof {
                    assert(views_of(parts@) =~= Seq::new(
                        vs@.len(),
                        |i: int| variant_arm(vs@[i]) + ","@,
                    ));
                }
                let mut out =
                    "::core::hash::Hash::hash(&::core::mem::discriminant(self), state); match self { ".to_owned();
                let joined = join_strings(&parts, " ");
                out.append(joined.as_str());
                out.append(" }");
                out
            }
        },
        TypeKind::Union => {
            return Err(
                Diagnostic {
                    anchor: input.name.clone(),
                    message: "Cannot derive `Hash` on a `union`.".to_owned(),
                },
            );
        },
    };
    let mut method: String;
    if body.as_str().is_empty() {
        method = "fn hash<H: ::core::hash::Hasher>(&self, state: &mut H) {}".to_owned();
    } else {
        method = "fn hash<H: ::core::hash::Hasher>(&self, state: &mut H) { ".to_owned();
        method.append(body.as_str());
        method.append(" }");
    }
    Ok(render_impl_block("::core::hash::Hash", input, &method))
}

} // verus!
