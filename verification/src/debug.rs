//! The debug-formatting strategy: renders a `fmt` body that writes the type
//! (or variant) name and every field through the structured formatting
//! builders.  A shape with no fields writes the bare name; unions are
//! rejected.

use vstd::prelude::*;
use vstd::string::StringExecFns;
use crate::header::{impl_block, render_impl_block};
use crate::shape::{Diagnostic, FieldList, TypeKind, TypeShape, VariantDecl};
use crate::text::{spec_join, views_of, join_strings};
use crate::walker::{field_key, field_keys, variant_pattern, render_pattern};

verus! {

/// `f.write_str("name")`: the rendering of a shape with no fields.
pub open spec fn write_str_text(name: Seq<char>) -> Seq<char> {
    "f.write_str(\""@ + name + "\")"@
}

/// One builder step of a struct body, reading the field through `self.`.
pub open spec fn struct_frag(fields: FieldList, i: int) -> Seq<char> {
    match fields {
        FieldList::Named(_) => ".field(\""@ + field_key(fields, i) + "\", &self."@ + field_key(
            fields,
            i,
        ) + ")"@,
        FieldList::Positional(_) => ".field(&self."@ + field_key(fields, i) + ")"@,
        FieldList::Empty => Seq::empty(),
    }
}

/// One builder step of a variant arm, reading the pattern-bound
/// `field_`-prefixed variable.
pub open spec fn variant_frag(fields: FieldList, i: int) -> Seq<char> {
    match fields {
        FieldList::Named(_) => ".field(\""@ + field_key(fields, i) + "\", field_"@ + field_key(
            fields,
            i,
        ) + ")"@,
        FieldList::Positional(_) => ".field(field_"@ + field_key(fields, i) + ")"@,
        FieldList::Empty => Seq::empty(),
    }
}

/// The builder chain rendering `name` and the given fragments: a
/// named-field builder, a positional builder, or the bare name when there is
/// no field.
pub open spec fn builder_text(name: Seq<char>, fields: FieldList, frags: Seq<Seq<char>>) -> Seq<
    char,
> {
    if fields.spec_len() == 0 {
        write_str_text(name)
    } else {
        match fields {
            FieldList::Named(_) => "f.debug_struct(\""@ + name + "\")"@ + spec_join(frags, ""@)
                + ".finish()"@,
            FieldList::Positional(_) => "f.debug_tuple(\""@ + name + "\")"@ + spec_join(frags, ""@)
                + ".finish()"@,
            FieldList::Empty => write_str_text(name),
        }
    }
}

/// One match arm of an enum body: destructure the variant, render it under
/// its own name.
pub open spec fn variant_arm(v: VariantDecl) -> Seq<char> {
    variant_pattern(v.name@, v.fields, "field_"@, true) + " => "@ + builder_text(
        v.name@,
        v.fields,
        Seq::new(v.fields.spec_len(), |i: int| variant_frag(v.fields, i)),
    )
}

/// The whole `fmt` body for the given kind; unions never reach here.
pub open spec fn debug_body(kind: TypeKind, ty_name: Seq<char>) -> Seq<char> {
    match kind {
        TypeKind::Struct(fields) => builder_text(
            ty_name,
            fields,
            Seq::new(fields.spec_len(), |i: int| struct_frag(fields, i)),
        ),
        TypeKind::Enum(vs) => if vs@.len() == 0 {
            "match *self {}"@
        } else {
            "match self { "@ + spec_join(
                Seq::new(vs@.len(), |i: int| variant_arm(vs@[i]) + ","@),
                " "@,
            ) + " }"@
        },
        TypeKind::Union => Seq::empty(),
    }
}

/// The whole generated implementation block.
pub open spec fn debug_impl_text(input: TypeShape) -> Seq<char> {
    impl_block(
        "::core::fmt::Debug"@,
        input,
        "fn fmt(&self, f: &mut ::core::fmt::Formatter) -> ::core::fmt::Result { "@ + debug_body(
            input.kind,
            input.name@,
        ) + " }"@,
    )
}

/// Renders the builder chain for a struct body; see [`builder_text`].
fn render_struct_builder(name: &String, fields: &FieldList) -> (r: String)
    ensures
        r@ == builder_text(
            name@,
            *fields,
            Seq::new(fields.spec_len(), |i: int| struct_frag(*fields, i)),
        ),
{
    let keys = field_keys(fields);
    let n = keys.len();
    if n == 0 {
        let mut out = "f.write_str(\"".to_owned();
        out.append(name.as_str());
        out.append("\")");
        return out;
    }
    let mut parts: Vec<String> = Vec::new();
    for j in 0..n
        invariant
            n == keys@.len(),
            n as nat == fields.spec_len(),
            forall|i: int| 0 <= i < n ==> keys@[i]@ == field_key(*fields, i),
            parts@.len() == j,
            forall|i: int| 0 <= i < j ==> parts@[i]@ == struct_frag(*fields, i),
    {
        let mut p = String::new();
        match fields {
            FieldList::Named(_) => {
                p.append(".field(\"");
                p.append(keys[j].as_str());
                p.append("\", &self.");
                p.append(keys[j].as_str());
                p.append(")");
            },
            FieldList::Positional(_) => {
                p.append(".field(&self.");
                p.append(keys[j].as_str());
                p.append(")");
            },
            FieldList::Empty => {},
        }
        parts.push(p);
    }
    proof {
        assert(views_of(parts@) =~= Seq::new(fields.spec_len(), |i: int| struct_frag(*fields, i)));
    }
    let mut out: String;
    match fields {
        FieldList::Named(_) => {
            out = "f.debug_struct(\"".to_owned();
        },
        _ => {
            out = "f.debug_tuple(\"".to_owned();
        },
    }
    out.append(name.as_str());
    out.append("\")");
    let joined = join_strings(&parts, "");
    out.append(joined.as_str());
    out.append(".finish()");
    out
}

/// Renders one variant's match arm; see [`variant_arm`].
fn render_variant_arm(v: &VariantDecl) -> (r: String)
    ensures
        r@ == variant_arm(*v),
{
    let mut out = render_pattern(&v.name, &v.fields, "field_", true);
    out.append(" => ");
    let n = v.fields.len();
    if n == 0 {
        out.append("f.write_str(\"");
        out.append(v.name.as_str());
        out.append("\")");
        return out;
    }
    let keys = field_keys(&v.fields);
    let mut parts: Vec<String> = Vec::new();
    for j in 0..n
        invariant
            n == keys@.len(),
            n as nat == v.fields.spec_len(),
            forall|i: int| 0 <= i < n ==> keys@[i]@ == field_key(v.fields, i),
            parts@.len() == j,
            forall|i: int| 0 <= i < j ==> parts@[i]@ == variant_frag(v.fields, i),
    {
        let mut p = String::new();
        match &v.fields {
            FieldList::Named(_) => {
                p.append(".field(\"");
                p.append(keys[j].as_str());
                p.append("\", field_");
                p.append(keys[j].as_str());
                p.append(")");
            },
            FieldList::Positional(_) => {
                p.append(".field(field_");
                p.append(keys[j].as_str());
                p.append(")");
            },
            FieldList::Empty => {},
        }
        parts.push(p);
    }
    proof {
        assert(views_of(parts@) =~= Seq::new(
            v.fields.spec_len(),
            |i: int| variant_frag(v.fields, i),
        ));
    }
    match &v.fields {
        FieldList::Named(_) => {
            out.append("f.debug_struct(\"");
        },
        _ => {
            out.append("f.debug_tuple(\"");
        },
    }
    out.append(v.name.as_str());
    out.append("\")");
    let joined = join_strings(&parts, "");
    out.append(joined.as_str());
    out.append(".finish()");
    out
}

/// Produces the `::core::fmt::Debug` implementation block for the described
/// type, or rejects a union, which is not guaranteed to hold a valid value
/// of any one field's type.
pub fn derive_debug(input: &TypeShape) -> (r: Result<String, Diagnostic>)
    ensures
        (r is Err) == input.spec_is_union(),
        r matches Ok(code) ==> code@ == debug_impl_text(*input),
        r matches Err(d) ==> d.anchor@ == input.name@ && d.message@
            == "Cannot derive `Debug` on a `union`."@,
{
    let body = match &input.kind {
        TypeKind::Struct(fields) => render_struct_builder(&input.name, fields),
        TypeKind::Enum(vs) => {
            let n = vs.len();
            if n == 0 {
                "match *self {}".to_owned()
            } else {
                let mut parts: Vec<String> = Vec::new();
                for j in 0..n
                    invariant
                        n == vs@.len(),
                        parts@.len() == j,
                        forall|i: int| 0 <= i < j ==> parts@[i]@ == variant_arm(vs@[i]) + ","@,
                {
                    let mut arm = render_variant_arm(&vs[j]);
                    arm.append(",");
                    parts.push(arm);
                }
                proof {
                    assert(views_of(parts@) =~= Seq::new(
                        vs@.len(),
                        |i: int| variant_arm(vs@[i]) + ","@,
                    ));
                }
                let mut out = "match self { ".to_owned();
                let joined = join_strings(&parts, " ");
                out.append(joined.as_str());
                out.append(" }");
                out
            }
        },
        TypeKind::Union => {
            return Err(
                Diagnostic {
                    anchor: input.name.clone(),
                    message: "Cannot derive `Debug` on a `union`.".to_owned(),
                },
            );
        },
    };
    let mut method =
        "fn fmt(&self, f: &mut ::core::fmt::Formatter) -> ::core::fmt::Result { ".to_owned();
    method.append(body.as_str());
    method.append(" }");
    Ok(render_impl_block("::core::fmt::Debug", input, &method))
}

} // verus!
