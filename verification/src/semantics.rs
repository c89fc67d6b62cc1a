//! The value model behind the generated method bodies.
//!
//! A [`ShapeValue`] stands for one runtime value of a described type: the
//! rank of its active variant and one opaque atom per field.  Atoms model
//! field contents: two fields are equal exactly when their atoms are equal,
//! they compare as their atoms compare, and a field's hash mix-in records its
//! atom.  The evaluators below give, under this model, the exact meaning of
//! each generated method body, and the laws in [`crate::laws`] are proved
//! against them.

use vstd::prelude::*;
use vstd::string::StringExecFns;
use crate::shape::{Diagnostic, FieldList, TypeKind, TypeShape};
use crate::default::{first_marked_from, marking_invalid, scan_marked};
use crate::text::{spec_join, views_of, join_strings};

verus! {

/// The outcome of a three-way comparison in the value model.
#[derive(Clone, Copy, PartialEq, Eq, Structural, Debug)]
pub enum Order {
    Less,
    Equal,
    Greater,
}

/// One modelled value of a described type: the active variant's rank (zero
/// for a struct) and one atom per field, in declaration order.
#[derive(Debug)]
pub struct ShapeValue {
    pub variant: usize,
    pub fields: Vec<u64>,
}

/// Whether the value is a value of the described kind: its variant rank is
/// in range and it carries exactly one atom per field of that variant.
pub open spec fn fits(kind: TypeKind, v: ShapeValue) -> bool {
    match kind {
        TypeKind::Struct(fields) => v.variant == 0 && v.fields@.len() == fields.spec_len(),
        TypeKind::Enum(vs) => v.variant < vs@.len() && v.fields@.len() == vs@[
            v.variant as int
        ].fields.spec_len(),
        TypeKind::Union => v.variant == 0,
    }
}

/// What the generated `eq` body returns: operands of the same variant are
/// equal exactly when every field pair is, and operands of different
/// variants are never equal.
pub open spec fn eq_sem(kind: TypeKind, x: ShapeValue, y: ShapeValue) -> bool {
    x.variant == y.variant && (forall|i: int|
        0 <= i < x.fields@.len() ==> x.fields@[i] == y.fields@[i])
}

/// What the generated `ne` body returns: operands of different variants are
/// always unequal, and operands of the same variant are unequal exactly when
/// some field pair is.
pub open spec fn ne_sem(kind: TypeKind, x: ShapeValue, y: ShapeValue) -> bool {
    x.variant != y.variant || (exists|i: int|
        0 <= i < x.fields@.len() && x.fields@[i] != y.fields@[i])
}

/// How two field atoms compare.
pub open spec fn atom_cmp(a: u64, b: u64) -> Order {
    if a < b {
        Order::Less
    } else if a == b {
        Order::Equal
    } else {
        Order::Greater
    }
}

/// The lexicographic comparison of the field atoms from position `i` on:
/// the first non-equal outcome wins, and running out of fields means
/// "equal".  This is the meaning of the generated right-nested comparison
/// chain.
pub open spec fn cmp_fields_from(xs: Seq<u64>, ys: Seq<u64>, i: int) -> Order
    decreases xs.len() - i,
{
    if i < 0 || i >= xs.len() {
        Order::Equal
    } else if atom_cmp(xs[i], ys[i]) == Order::Equal {
        cmp_fields_from(xs, ys, i + 1)
    } else {
        atom_cmp(xs[i], ys[i])
    }
}

/// What the generated `partial_cmp` body returns: operands of the same
/// variant compare field by field in declaration order, and operands of
/// different variants compare by declaration-order rank alone, never by
/// contents.
pub open spec fn cmp_sem(kind: TypeKind, x: ShapeValue, y: ShapeValue) -> Order {
    if x.variant == y.variant {
        cmp_fields_from(x.fields@, y.fields@, 0)
    } else {
        atom_cmp(x.variant as u64, y.variant as u64)
    }
}

/// What the generated `hash` body feeds into the hasher, in order: for an
/// enum of two or more variants the active variant's rank first, then the
/// field atoms; for a struct or a single-variant enum the field atoms alone.
pub open spec fn hash_trace(kind: TypeKind, x: ShapeValue) -> Seq<u64> {
    match kind {
        TypeKind::Struct(_) => x.fields@,
        TypeKind::Enum(vs) => if vs@.len() <= 1 {
            x.fields@
        } else {
            seq![x.variant as u64] + x.fields@
        },
        TypeKind::Union => Seq::empty(),
    }
}

/// What the formatting builders render for head `head` and the given field
/// renderings: the bare head for a fieldless shape, `head { f1: r1, f2: r2 }`
/// for named fields, `head(r1, r2)` for positional ones.
pub open spec fn debug_render_spec(
    head: Seq<char>,
    fields: FieldList,
    renders: Seq<Seq<char>>,
) -> Seq<char> {
    match fields {
        FieldList::Named(names) => if names@.len() == 0 {
            head
        } else {
            head + " { "@ + spec_join(
                Seq::new(names@.len(), |i: int| names@[i]@ + ": "@ + renders[i]),
                ", "@,
            ) + " }"@
        },
        FieldList::Positional(n) => if n == 0 {
            head
        } else {
            head + "("@ + spec_join(renders, ", "@) + ")"@
        },
        FieldList::Empty => head,
    }
}

/// The field arrangement the generated `fmt` body walks: the struct's own
/// fields, or those of the active variant.
pub open spec fn debug_fields(kind: TypeKind, x: ShapeValue) -> FieldList {
    match kind {
        TypeKind::Struct(fields) => fields,
        TypeKind::Enum(vs) => vs@[x.variant as int].fields,
        TypeKind::Union => FieldList::Empty,
    }
}

/// What the generated `fmt` body renders, given the rendering of each field
/// in declaration order: the type's own name heads a struct, the active
/// variant's name heads an enum value.
pub open spec fn debug_sem(
    kind: TypeKind,
    ty_name: Seq<char>,
    x: ShapeValue,
    renders: Seq<Seq<char>>,
) -> Seq<char> {
    match kind {
        TypeKind::Struct(fields) => debug_render_spec(ty_name, fields, renders),
        TypeKind::Enum(vs) => debug_render_spec(
            vs@[x.variant as int].name@,
            vs@[x.variant as int].fields,
            renders,
        ),
        TypeKind::Union => Seq::empty(),
    }
}

/// Evaluates the generated `eq` body on two modelled operands.
pub fn eval_eq(input: &TypeShape, x: &ShapeValue, y: &ShapeValue) -> (r: bool)
    requires
        !input.spec_is_union(),
        fits(input.kind, *x),
        fits(input.kind, *y),
    ensures
        r == eq_sem(input.kind, *x, *y),
{
    if x.variant != y.variant {
        return false;
    }
    let n = x.fields.len();
    proof {
        assert(x.fields@.len() == y.fields@.len());
    }
    for j in 0..n
        invariant
            n == x.fields@.len(),
            n == y.fields@.len(),
            forall|i: int| 0 <= i < j ==> x.fields@[i] == y.fields@[i],
    {
        if x.fields[j] != y.fields[j] {
            return false;
        }
    }
    true
}

/// Evaluates the generated `ne` body on two modelled operands.
pub fn eval_ne(input: &TypeShape, x: &ShapeValue, y: &ShapeValue) -> (r: bool)
    requires
        !input.spec_is_union(),
        fits(input.kind, *x),
        fits(input.kind, *y),
    ensures
        r == ne_sem(input.kind, *x, *y),
{
    if x.variant != y.variant {
        return true;
    }
    let n = x.fields.len();
    proof {
        assert(x.fields@.len() == y.fields@.len());
    }
    for j in 0..n
        invariant
            n == x.fields@.len(),
            n == y.fields@.len(),
            forall|i: int| 0 <= i < j ==> x.fields@[i] == y.fields@[i],
    {
        if x.fields[j] != y.fields[j] {
            return true;
        }
    }
    false
}

/// Evaluates the generated `partial_cmp` body on two modelled operands.
pub fn eval_partial_cmp(input: &TypeShape, x: &ShapeValue, y: &ShapeValue) -> (r: Order)
    requires
        !input.spec_is_union(),
        fits(input.kind, *x),
        fits(input.kind, *y),
    ensures
        r == cmp_sem(input.kind, *x, *y),
{
    if x.variant != y.variant {
        if x.variant < y.variant {
            return Order::Less;
        } else {
            return Order::Greater;
        }
    }
    let n = x.fields.len();
    proof {
        assert(x.fields@.len() == y.fields@.len());
    }
    for j in 0..n
        invariant
            n == x.fields@.len(),
            n == y.fields@.len(),
            x.variant == y.variant,
            cmp_fields_from(x.fields@, y.fields@, 0) == cmp_fields_from(
                x.fields@,
                y.fields@,
                j as int,
            ),
            forall|i: int| 0 <= i < j ==> x.fields@[i] == y.fields@[i],
    {
        let a = x.fields[j];
        let b = y.fields[j];
        proof {
            assert(cmp_fields_from(x.fields@, y.fields@, j as int) == if atom_cmp(a, b)
                == Order::Equal {
                cmp_fields_from(x.fields@, y.fields@, j + 1)
            } else {
                atom_cmp(a, b)
            });
        }
        if a < b {
            return Order::Less;
        }
        if a > b {
            return Order::Greater;
        }
    }
    Order::Equal
}

/// Evaluates the generated `hash` body on a modelled operand, recording the
/// sequence of mix-ins it performs.
pub fn eval_hash(input: &TypeShape, x: &ShapeValue) -> (r: Vec<u64>)
    requires
        !input.spec_is_union(),
        fits(input.kind, *x),
    ensures
        r@ == hash_trace(input.kind, *x),
{
    let mut trace: Vec<u64> = Vec::new();
    match &input.kind {
        TypeKind::Struct(_) => {},
        TypeKind::Enum(vs) => {
            if vs.len() > 1 {
                trace.push(x.variant as u64);
            }
        },
        TypeKind::Union => {},
    }
    let n = x.fields.len();
    let ghost prefix = trace@;
    for j in 0..n
        invariant
            n == x.fields@.len(),
            trace@ == prefix + x.fields@.take(j as int),
    {
        trace.push(x.fields[j]);
        proof {
            assert(x.fields@.take(j + 1) =~= x.fields@.take(j as int).push(x.fields@[j as int]));
        }
    }
    proof {
        assert(x.fields@.take(n as int) =~= x.fields@);
        assert(trace@ =~= hash_trace(input.kind, *x));
    }
    trace
}

/// Renders head and fields through the builder protocol; see
/// [`debug_render_spec`].
fn render_debug_value(head: &String, fields: &FieldList, renders: &Vec<String>) -> (r: String)
    requires
        renders@.len() == fields.spec_len(),
    ensures
        r@ == debug_render_spec(head@, *fields, views_of(renders@)),
{
    let mut out = String::new();
    out.append(head.as_str());
    match fields {
        FieldList::Named(names) => {
            let n = names.len();
            if n > 0 {
                let mut parts: Vec<String> = Vec::new();
                for j in 0..n
                    invariant
                        n == names@.len(),
                        n == renders@.len(),
                        parts@.len() == j,
                        forall|i: int|
                            0 <= i < j ==> parts@[i]@ == names@[i]@ + ": "@ + renders@[i]@,
                {
                    let mut p = String::new();
                    p.append(names[j].as_str());
                    p.append(": ");
                    p.append(renders[j].as_str());
                    parts.push(p);
                }
                proof {
                    assert(views_of(parts@) =~= Seq::new(
                        names@.len(),
                        |i: int| names@[i]@ + ": "@ + views_of(renders@)[i],
                    ));
                }
                out.append(" { ");
                let joined = join_strings(&parts, ", ");
                out.append(joined.as_str());
                out.append(" }");
            }
        },
        FieldList::Positional(count) => {
            if *count > 0 {
                out.append("(");
                let joined = join_strings(renders, ", ");
                out.append(joined.as_str());
                out.append(")");
            }
        },
        FieldList::Empty => {},
    }
    out
}

/// Evaluates the generated `fmt` body on a modelled operand, given the
/// rendering of each of its fields in declaration order.
pub fn eval_debug(input: &TypeShape, x: &ShapeValue, renders: &Vec<String>) -> (r: String)
    requires
        !input.spec_is_union(),
        fits(input.kind, *x),
        renders@.len() == x.fields@.len(),
    ensures
        r@ == debug_sem(input.kind, input.name@, *x, views_of(renders@)),
{
    match &input.kind {
        TypeKind::Struct(fields) => render_debug_value(&input.name, fields, renders),
        TypeKind::Enum(vs) => render_debug_value(&vs[x.variant].name, &vs[x.variant].fields, renders),
        TypeKind::Union => vstd::pervasive::unreached(),
    }
}

/// Evaluates the generated `clone` body on a modelled operand: field-wise
/// duplication of pure data reproduces the value exactly.
pub fn eval_clone(x: &ShapeValue) -> (r: ShapeValue)
    ensures
        r.variant == x.variant,
        r.fields@ == x.fields@,
{
    let n = x.fields.len();
    let mut fields: Vec<u64> = Vec::new();
    for j in 0..n
        invariant
            n == x.fields@.len(),
            fields@ == x.fields@.take(j as int),
    {
        fields.push(x.fields[j]);
        proof {
            assert(x.fields@.take(j + 1) =~= x.fields@.take(j as int).push(x.fields@[j as int]));
        }
    }
    proof {
        assert(x.fields@.take(n as int) =~= x.fields@);
    }
    ShapeValue { variant: x.variant, fields }
}

/// The all-default atoms a default construction fills its fields with.
fn zero_atoms(n: usize) -> (r: Vec<u64>)
    ensures
        r@ == Seq::new(n as nat, |i: int| 0u64),
{
    let mut out: Vec<u64> = Vec::new();
    for j in 0..n
        invariant
            out@ == Seq::new(j as nat, |i: int| 0u64),
    {
        out.push(0);
        proof {
            assert(out@ =~= Seq::new((j + 1) as nat, |i: int| 0u64));
        }
    }
    out
}

/// Evaluates the generated `default` body: builds the struct itself, or the
/// uniquely marked variant of an enum, with one default atom per field; an
/// enum without exactly one marked variant is rejected, exactly as
/// generation rejects it.
pub fn eval_default(input: &TypeShape) -> (r: Result<ShapeValue, Diagnostic>)
    ensures
        (r is Err) == marking_invalid(input.kind),
        r matches Ok(v) ==> fits(input.kind, v) && (forall|i: int|
            0 <= i < v.fields@.len() ==> v.fields@[i] == 0u64),
        r matches Ok(v) ==> match input.kind {
            TypeKind::Struct(fields) => v.variant == 0 && v.fields@.len() == fields.spec_len(),
            TypeKind::Enum(vs) => v.variant as int == first_marked_from(vs@, 0)
                && v.fields@.len() == vs@[v.variant as int].fields.spec_len(),
            TypeKind::Union => v.variant == 0 && v.fields@.len() == 0,
        },
        r matches Err(d) ==> d.anchor@ == input.name@ && d.message@
            == "Use a single `#[default]` attribute to mark a variant as the default one."@,
{
    match &input.kind {
        TypeKind::Struct(fields) => {
            let n = fields.len();
            Ok(ShapeValue { variant: 0, fields: zero_atoms(n) })
        },
        TypeKind::Enum(vs) => {
            let (count, first) = scan_marked(vs);
            if count != 1 {
                Err(
                    Diagnostic {
                        anchor: input.name.clone(),
                        message: "Use a single `#[default]` attribute to mark a variant as the default one.".to_owned(),
                    },
                )
            } else {
                let n = vs[first].fields.len();
                Ok(ShapeValue { variant: first, fields: zero_atoms(n) })
            }
        },
        TypeKind::Union => Ok(ShapeValue { variant: 0, fields: zero_atoms(0) }),
    }
}

} // verus!
