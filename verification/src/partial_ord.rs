//! The ordering strategy: renders a `partial_cmp` body as a right-nested
//! chain that compares fields in declaration order and stops at the first
//! non-equal outcome.  Arms of different enum variants never inspect field
//! contents: the catch-all compares the two discriminants, so declaration
//! order alone ranks the variants.  Unions are rejected.

use vstd::prelude::*;
use vstd::string::StringExecFns;
use crate::header::{impl_block, render_impl_block};
use crate::shape::{Diagnostic, FieldList, TypeKind, TypeShape, VariantDecl};
use crate::text::{spec_join, views_of, join_strings};
use crate::walker::{field_key, field_keys, variant_pattern, render_pattern};

verus! {

/// One field comparison call, reading the operands through `self.`/`other.`
/// in a struct body and through the pattern-bound variables in a variant
/// arm.
pub open spec fn cmp_call(fields: FieldList, struct_mode: bool, i: int) -> Seq<char> {
    if struct_mode {
        "::core::cmp::PartialOrd::partial_cmp(&self."@ + field_key(fields, i) + ", &other."@
            + field_key(fields, i) + ")"@
    } else {
        "::core::cmp::PartialOrd::partial_cmp(self_"@ + field_key(fields, i) + ", other_"@
            + field_key(fields, i) + ")"@
    }
}

/// The right-nested comparison chain over the fields from position `i` on:
/// compare one field; on "equal", fall through to the rest; otherwise return
/// that outcome.  With no field left, the constant "equal".
pub open spec fn chain_from(fields: FieldList, struct_mode: bool, i: int) -> Seq<char>
    decreases fields.spec_len() - i,
{
    if i < 0 || i >= fields.spec_len() {
        "::core::option::Option::Some(::core::cmp::Ordering::Equal)"@
    } else if i == fields.spec_len() - 1 {
        cmp_call(fields, struct_mode, i)
    } else {
        "match "@ + cmp_call(fields, struct_mode, i)
            + " { ::core::option::Option::Some(::core::cmp::Ordering::Equal) => "@ + chain_from(
            fields,
            struct_mode,
            i + 1,
        ) + ", cmp => cmp, }"@
    }
}

/// One match arm of an enum body, pairing a variant with itself.
pub open spec fn variant_arm(v: VariantDecl) -> Seq<char> {
    "("@ + variant_pattern(v.name@, v.fields, "self_"@, true) + ", "@ + variant_pattern(
        v.name@,
        v.fields,
        "other_"@,
        true,
    ) + ",) => "@ + chain_from(v.fields, false, 0)
}

/// The whole `partial_cmp` body for the given kind; unions never reach
/// here.
pub open spec fn ord_body(kind: TypeKind) -> Seq<char> {
    match kind {
        TypeKind::Struct(fields) => chain_from(fields, true, 0),
        TypeKind::Enum(vs) => if vs@.len() == 0 {
            "match *self {}"@
        } else if vs@.len() == 1 {
            "match (self, other) { "@ + variant_arm(vs@[0]) + ", }"@
        } else {
            "match (self, other) { "@ + spec_join(
                Seq::new(vs@.len(), |i: int| variant_arm(vs@[i]) + ","@),
                " "@,
            )
                + " _ => ::core::cmp::PartialOrd::partial_cmp(&::core::mem::discriminant(self), &::core::mem::discriminant(other)), }"@
        },
        TypeKind::Union => Seq::empty(),
    }
}

/// The whole generated implementation block.
pub open spec fn partial_ord_impl_text(input: TypeShape) -> Seq<char> {
    impl_block(
        "::core::cmp::PartialOrd"@,
        input,
        "fn partial_cmp(&self, other: &Self) -> ::core::option::Option<::core::cmp::Ordering> { "@
            + ord_body(input.kind) + " }"@,
    )
}

/// Renders the comparison chain from position `i` on; see [`chain_from`].
fn render_chain(keys: &Vec<String>, fields: &FieldList, struct_mode: bool, i: usize) -> (r:
    String)
    requires
        keys@.len() == fields.spec_len(),
        forall|k: int| 0 <= k < keys@.len() ==> keys@[k]@ == field_key(*fields, k),
        i < keys@.len(),
    ensures
        r@ == chain_from(*fields, struct_mode, i as int),
    decreases keys@.len() - i,
{
    let mut call: String;
    if struct_mode {
        call = "::core::cmp::PartialOrd::partial_cmp(&self.".to_owned();
        call.append(keys[i].as_str());
        call.append(", &other.");
        call.append(keys[i].as_str());
        call.append(")");
    } else {
        call = "::core::cmp::PartialOrd::partial_cmp(self_".to_owned();
        call.append(keys[i].as_str());
        call.append(", other_");
        call.append(keys[i].as_str());
        call.append(")");
    }
    if i == keys.len() - 1 {
        call
    } else {
        let inner = render_chain(keys, fields, struct_mode, i + 1);
        let mut out = "match ".to_owned();
        out.append(call.as_str());
        out.append(" { ::core::option::Option::Some(::core::cmp::Ordering::Equal) => ");
        out.append(inner.as_str());
        out.append(", cmp => cmp, }");
        out
    }
}

/// Renders the comparison chain over all fields, or the constant "equal"
/// when there is no field.
fn render_field_chain(fields: &FieldList, struct_mode: bool) -> (r: String)
    ensures
        r@ == chain_from(*fields, struct_mode, 0),
{
    let keys = field_keys(fields);
    if keys.len() == 0 {
        "::core::option::Option::Some(::core::cmp::Ordering::Equal)".to_owned()
    } else {
        render_chain(&keys, fields, struct_mode, 0)
    }
}

/// Renders one variant's match arm; see [`variant_arm`].
fn render_variant_arm(v: &VariantDecl) -> (r: String)
    ensures
        r@ == variant_arm(*v),
{
    let mut out = "(".to_owned();
    let self_pat = render_pattern(&v.name, &v.fields, "self_", true);
    out.append(self_pat.as_str());
    out.append(", ");
    let other_pat = render_pattern(&v.name, &v.fields, "other_", true);
    out.append(other_pat.as_str());
    out.append(",) => ");
    let chain = render_field_chain(&v.fields, false);
    out.append(chain.as_str());
    out
}

/// Produces the `::core::cmp::PartialOrd` implementation block for the
/// described type, or rejects a union, whose fields cannot be compared
/// field-wise.
pub fn derive_partial_ord(input: &TypeShape) -> (r: Result<String, Diagnostic>)
    ensures
        (r is Err) == input.spec_is_union(),
        r matches Ok(code) ==> code@ == partial_ord_impl_text(*input),
        r matches Err(d) ==> d.anchor@ == input.name@ && d.message@
            == "Cannot derive `PartialOrd` on a `union`."@,
{
    let body = match &input.kind {
        TypeKind::Struct(fields) => render_field_chain(fields, true),
        TypeKind::Enum(vs) => {
            let n = vs.len();
            if n == 0 {
                "match *self {}".to_owned()
            } else if n == 1 {
                let mut out = "match (self, other) { ".to_owned();
                let arm = render_variant_arm(&vs[0]);
                out.append(arm.as_str());
                out.append(", }");
                out
            } else {
                let mut parts: Vec<String> = Vec::new();
                for j in 0..n
                    invariant
                        n == vs@.len(),
                        parts@.len() == j,
                        forall|i: int| 0 <= i < j ==> parts@[i]@ == variant_arm(vs@[i]) + ","@,
                {
                    let mut arm = render_variant_arm(&vs[j]);
                    arm.append(",");
                    parts.push(arm);
                }
                proof {
                    assert(views_of(parts@) =~= Seq::new(
                        vs@.len(),
                        |i: int| variant_arm(vs@[i]) + ","@,
                    ));
                }
                let mut out = "match (self, other) { ".to_owned();
                let joined = join_strings(&parts, " ");
                out.append(joined.as_str());
                out.append(
                    " _ => ::core::cmp::PartialOrd::partial_cmp(&::core::mem::discriminant(self), &::core::mem::discriminant(other)), }",
                );
                out
            }
        },
        TypeKind::Union => {
            return Err(
                Diagnostic {
                    anchor: input.name.clone(),
                    message: "Cannot derive `PartialOrd` on a `union`.".to_owned(),
                },
            );
        },
    };
    let mut method =
        "fn partial_cmp(&self, other: &Self) -> ::core::option::Option<::core::cmp::Ordering> { ".to_owned();
    method.append(body.as_str());
    method.append(" }");
    Ok(render_impl_block("::core::cmp::PartialOrd", input, &method))
}

} // verus!
