//! The equality strategy: renders the bodies of the two boolean-returning
//! methods `eq` and `ne`.  Field comparisons are combined with `&&` for `eq`
//! and `||` for `ne`, in declaration order; different variants of an enum are
//! never equal; unions are rejected.

use vstd::prelude::*;
use vstd::string::StringExecFns;
use crate::header::{impl_block, render_impl_block};
use crate::shape::{Diagnostic, FieldList, TypeKind, TypeShape, VariantDecl};
use crate::text::{spec_join, views_of, join_strings};
use crate::walker::{field_key, field_keys, variant_pattern, render_pattern};

verus! {

/// One field comparison of a struct body, reading both operands through
/// `self.` and `other.`.
pub open spec fn struct_frag(fields: FieldList, eq: bool, i: int) -> Seq<char> {
    if eq {
        "::core::cmp::PartialEq::eq(&self."@ + field_key(fields, i) + ", &other."@ + field_key(
            fields,
            i,
        ) + ")"@
    } else {
        "::core::cmp::PartialEq::ne(&self."@ + field_key(fields, i) + ", &other."@ + field_key(
            fields,
            i,
        ) + ")"@
    }
}

/// One field comparison of a variant arm, reading both operands through the
/// pattern-bound `self_`/`other_` variables.
pub open spec fn variant_frag(fields: FieldList, eq: bool, i: int) -> Seq<char> {
    if eq {
        "::core::cmp::PartialEq::eq(self_"@ + field_key(fields, i) + ", other_"@ + field_key(
            fields,
            i,
        ) + ")"@
    } else {
        "::core::cmp::PartialEq::ne(self_"@ + field_key(fields, i) + ", other_"@ + field_key(
            fields,
            i,
        ) + ")"@
    }
}

/// The combination of the given comparison fragments: conjunction for `eq`,
/// disjunction for `ne`, and the neutral constant when there is no field.
pub open spec fn combine_frags(frags: Seq<Seq<char>>, eq: bool) -> Seq<char> {
    if frags.len() == 0 {
        if eq {
            "true"@
        } else {
            "false"@
        }
    } else {
        if eq {
            spec_join(frags, " && "@)
        } else {
            spec_join(frags, " || "@)
        }
    }
}

/// The whole method body for a struct with the given fields.
pub open spec fn struct_body(fields: FieldList, eq: bool) -> Seq<char> {
    combine_frags(Seq::new(fields.spec_len(), |i: int| struct_frag(fields, eq, i)), eq)
}

/// One match arm of an enum body, pairing a variant with itself.
pub open spec fn variant_arm(v: VariantDecl, eq: bool) -> Seq<char> {
    "("@ + variant_pattern(v.name@, v.fields, "self_"@, true) + ", "@ + variant_pattern(
        v.name@,
        v.fields,
        "other_"@,
        true,
    ) + ",) => "@ + combine_frags(
        Seq::new(v.fields.spec_len(), |i: int| variant_frag(v.fields, eq, i)),
        eq,
    )
}

/// The whole method body for an enum with the given variants: one arm per
/// same-variant pairing, and — only when at least two variants exist — a
/// catch-all arm declaring different variants unequal.
pub open spec fn enum_body(vs: Seq<VariantDecl>, eq: bool) -> Seq<char> {
    if vs.len() == 0 {
        "match *self {}"@
    } else if vs.len() == 1 {
        "match (self, other) { "@ + variant_arm(vs[0], eq) + ", }"@
    } else {
        "match (self, other) { "@ + spec_join(
            Seq::new(vs.len(), |i: int| variant_arm(vs[i], eq) + ","@),
            " "@,
        ) + (if eq {
            " _ => false, }"@
        } else {
            " _ => true, }"@
        })
    }
}

/// The body of `eq` (or of `ne`) for the given kind; unions never reach
/// here.
pub open spec fn method_body(kind: TypeKind, eq: bool) -> Seq<char> {
    match kind {
        TypeKind::Struct(fields) => struct_body(fields, eq),
        TypeKind::Enum(vs) => enum_body(vs@, eq),
        TypeKind::Union => Seq::empty(),
    }
}

/// Both generated methods, side by side.
pub open spec fn methods_text(kind: TypeKind) -> Seq<char> {
    "fn eq(&self, other: &Self) -> bool { "@ + method_body(kind, true)
        + " } fn ne(&self, other: &Self) -> bool { "@ + method_body(kind, false) + " }"@
}

/// The whole generated implementation block.
pub open spec fn partial_eq_impl_text(input: TypeShape) -> Seq<char> {
    impl_block("::core::cmp::PartialEq"@, input, methods_text(input.kind))
}

/// Renders the struct method body; see [`struct_body`].
fn render_struct_body(fields: &FieldList, eq: bool) -> (r: String)
    ensures
        r@ == struct_body(*fields, eq),
{
    let keys = field_keys(fields);
    let n = keys.len();
    if n == 0 {
        if eq {
            return "true".to_owned();
        } else {
            return "false".to_owned();
        }
    }
    let mut parts: Vec<String> = Vec::new();
    for j in 0..n
        invariant
            n == keys@.len(),
            n as nat == fields.spec_len(),
            forall|i: int| 0 <= i < n ==> keys@[i]@ == field_key(*fields, i),
            parts@.len() == j,
            forall|i: int| 0 <= i < j ==> parts@[i]@ == struct_frag(*fields, eq, i),
    {
        let mut p = String::new();
        if eq {
            p.append("::core::cmp::PartialEq::eq(&self.");
        } else {
            p.append("::core::cmp::PartialEq::ne(&self.");
        }
        p.append(keys[j].as_str());
        p.append(", &other.");
        p.append(keys[j].as_str());
        p.append(")");
        parts.push(p);
    }
    proof {
        assert(views_of(parts@) =~= Seq::new(
            fields.spec_len(),
            |i: int| struct_frag(*fields, eq, i),
        ));
    }
    if eq {
        join_strings(&parts, " && ")
    } else {
        join_strings(&parts, " || ")
    }
}

/// Renders one variant's match arm; see [`variant_arm`].
fn render_variant_arm(v: &VariantDecl, eq: bool) -> (r: String)
    ensures
        r@ == variant_arm(*v, eq),
{
    let n = v.fields.len();
    let mut expr: String;
    if n == 0 {
        if eq {
            expr = "true".to_owned();
        } else {
            expr = "false".to_owned();
        }
    } else {
        let keys = field_keys(&v.fields);
        let mut parts: Vec<String> = Vec::new();
        for j in 0..n
            invariant
                n == keys@.len(),
                n as nat == v.fields.spec_len(),
                forall|i: int| 0 <= i < n ==> keys@[i]@ == field_key(v.fields, i),
                parts@.len() == j,
                forall|i: int| 0 <= i < j ==> parts@[i]@ == variant_frag(v.fields, eq, i),
        {
            let mut p = String::new();
            if eq {
                p.append("::core::cmp::PartialEq::eq(self_");
            } else {
                p.append("::core::cmp::PartialEq::ne(self_");
            }
            p.append(keys[j].as_str());
            p.append(", other_");
            p.append(keys[j].as_str());
            p.append(")");
            parts.push(p);
        }
        proof {
            assert(views_of(parts@) =~= Seq::new(
                v.fields.spec_len(),
                |i: int| variant_frag(v.fields, eq, i),
            ));
        }
        if eq {
            expr = join_strings(&parts, " && ");
        } else {
            expr = join_strings(&parts, " || ");
        }
    }
    let mut out = "(".to_owned();
    let self_pat = render_pattern(&v.name, &v.fields, "self_", true);
    out.append(self_pat.as_str());
    out.append(", ");
    let other_pat = render_pattern(&v.name, &v.fields, "other_", true);
    out.append(other_pat.as_str());
    out.append(",) => ");
    out.append(expr.as_str());
    out
}

/// Renders the enum method body; see [`enum_body`].
fn render_enum_body(vs: &Vec<VariantDecl>, eq: bool) -> (r: String)
    ensures
        r@ == enum_body(vs@, eq),
{
    let n = vs.len();
    if n == 0 {
        return "match *self {}".to_owned();
    }
    if n == 1 {
        let mut out = "match (self, other) { ".to_owned();
        let arm = render_variant_arm(&vs[0], eq);
        out.append(arm.as_str());
        out.append(", }");
        return out;
    }
    let mut parts: Vec<String> = Vec::new();
    for j in 0..n
        invariant
            n == vs@.len(),
            parts@.len() == j,
            forall|i: int| 0 <= i < j ==> parts@[i]@ == variant_arm(vs@[i], eq) + ","@,
    {
        let mut arm = render_variant_arm(&vs[j], eq);
        arm.append(",");
        parts.push(arm);
    }
    proof {
        assert(views_of(parts@) =~= Seq::new(vs@.len(), |i: int| variant_arm(vs@[i], eq) + ","@));
    }
    let mut out = "match (self, other) { ".to_owned();
    let joined = join_strings(&parts, " ");
    out.append(joined.as_str());
    if eq {
        out.append(" _ => false, }");
    } else {
        out.append(" _ => true, }");
    }
    out
}

/// Produces the `::core::cmp::PartialEq` implementation block for the
/// described type, or rejects a union, whose fields cannot be compared
/// field-wise.
pub fn derive_partial_eq(input: &TypeShape) -> (r: Result<String, Diagnostic>)
    ensures
        (r is Err) == input.spec_is_union(),
        r matches Ok(code) ==> code@ == partial_eq_impl_text(*input),
        r matches Err(d) ==> d.anchor@ == input.name@ && d.message@
            == "Cannot derive `PartialEq` on a `union`."@,
{
    let (eq_body, ne_body) = match &input.kind {
        TypeKind::Struct(fields) => (render_struct_body(fields, true), render_struct_body(
            fields,
            false,
        )),
        TypeKind::Enum(vs) => (render_enum_body(vs, true), render_enum_body(vs, false)),
        TypeKind::Union => {
            return Err(
                Diagnostic {
                    anchor: input.name.clone(),
                    message: "Cannot derive `PartialEq` on a `union`.".to_owned(),
                },
            );
        },
    };
    let mut body = "fn eq(&self, other: &Self) -> bool { ".to_owned();
    body.append(eq_body.as_str());
    body.append(" } fn ne(&self, other: &Self) -> bool { ");
    body.append(ne_body.as_str());
    body.append(" }");
    Ok(render_impl_block("::core::cmp::PartialEq", input, &body))
}

} // verus!
