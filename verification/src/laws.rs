//! The behavioural laws of the generated implementations, proved over the
//! value model of [`crate::semantics`].

use vstd::prelude::*;
use crate::shape::{TypeKind, VariantDecl, marked_count, marked_count_upto};
use crate::default::first_marked_from;
use crate::semantics::{
    Order,
    ShapeValue,
    atom_cmp,
    cmp_fields_from,
    cmp_sem,
    debug_sem,
    eq_sem,
    fits,
    hash_trace,
    ne_sem,
};

verus! {

/// Field-order fidelity: a struct's hash feeds the fields into the hasher
/// in exactly their declaration order — the i-th mix-in is the i-th field.
pub proof fn lemma_struct_hash_field_order(kind: TypeKind, x: ShapeValue)
    requires
        kind matches TypeKind::Struct(_),
        fits(kind, x),
    ensures
        hash_trace(kind, x).len() == x.fields@.len(),
        forall|i: int| 0 <= i < x.fields@.len() ==> hash_trace(kind, x)[i] == x.fields@[i],
{
}

/// Discriminant before fields: hashing a value of an enum with two or more
/// variants records the variant's rank before any field, and then the fields
/// in declaration order.
pub proof fn lemma_enum_hash_discriminant_first(kind: TypeKind, x: ShapeValue)
    requires
        kind matches TypeKind::Enum(vs) && vs@.len() >= 2,
        fits(kind, x),
    ensures
        hash_trace(kind, x).len() == 1 + x.fields@.len(),
        hash_trace(kind, x)[0] == x.variant as u64,
        forall|i: int| 0 <= i < x.fields@.len() ==> hash_trace(kind, x)[i + 1] == x.fields@[i],
{
}

/// A single-variant enum records no discriminant at all: its hash trace is
/// exactly the field atoms.
pub proof fn lemma_single_variant_hash_no_discriminant(kind: TypeKind, x: ShapeValue)
    requires
        kind matches TypeKind::Enum(vs) && vs@.len() == 1,
        fits(kind, x),
    ensures
        hash_trace(kind, x) == x.fields@,
{
}

/// Cross-variant ordering uses rank, not content: values of different
/// variants compare by declaration-order rank alone, the earlier-declared
/// variant being the lesser, whatever the field contents are.
pub proof fn lemma_cross_variant_cmp_uses_rank(kind: TypeKind, x: ShapeValue, y: ShapeValue)
    requires
        kind matches TypeKind::Enum(_),
        fits(kind, x),
        fits(kind, y),
        x.variant != y.variant,
    ensures
        cmp_sem(kind, x, y) == atom_cmp(x.variant as u64, y.variant as u64),
        x.variant < y.variant ==> cmp_sem(kind, x, y) == Order::Less,
        x.variant > y.variant ==> cmp_sem(kind, x, y) == Order::Greater,
{
}

/// Cross-variant ordering never examines field data: replacing the fields
/// of both operands, while keeping their variants, cannot change the
/// outcome.
pub proof fn lemma_cross_variant_cmp_ignores_content(
    kind: TypeKind,
    x: ShapeValue,
    y: ShapeValue,
    x2: ShapeValue,
    y2: ShapeValue,
)
    requires
        kind matches TypeKind::Enum(_),
        fits(kind, x),
        fits(kind, y),
        fits(kind, x2),
        fits(kind, y2),
        x.variant != y.variant,
        x2.variant == x.variant,
        y2.variant == y.variant,
    ensures
        cmp_sem(kind, x2, y2) == cmp_sem(kind, x, y),
{
}

/// Equality is reflexive: every value equals itself, and `ne` denies it.
pub proof fn lemma_eq_reflexive(kind: TypeKind, x: ShapeValue)
    ensures
        eq_sem(kind, x, x),
        !ne_sem(kind, x, x),
{
}

/// Equality discriminates variants: values of different variants are never
/// equal and always unequal, whatever their fields hold.
pub proof fn lemma_eq_discriminates_variants(kind: TypeKind, x: ShapeValue, y: ShapeValue)
    requires
        x.variant != y.variant,
    ensures
        !eq_sem(kind, x, y),
        ne_sem(kind, x, y),
{
}

/// The generated `ne` body is the exact negation of the generated `eq`
/// body.
pub proof fn lemma_ne_negates_eq(kind: TypeKind, x: ShapeValue, y: ShapeValue)
    ensures
        ne_sem(kind, x, y) == !eq_sem(kind, x, y),
{
}

/// Empty-shape identities: a struct with no field makes every pair of
/// values equal and never unequal, compares every pair as "equal", hashes
/// nothing, and renders as the bare type name.
pub proof fn lemma_empty_struct_identities(
    kind: TypeKind,
    ty_name: Seq<char>,
    x: ShapeValue,
    y: ShapeValue,
)
    requires
        kind matches TypeKind::Struct(fields) && fields.spec_len() == 0,
        fits(kind, x),
        fits(kind, y),
    ensures
        eq_sem(kind, x, y),
        !ne_sem(kind, x, y),
        cmp_sem(kind, x, y) == Order::Equal,
        hash_trace(kind, x).len() == 0,
        debug_sem(kind, ty_name, x, Seq::empty()) == ty_name,
{
    assert(cmp_fields_from(x.fields@, y.fields@, 0) == Order::Equal);
}

/// A field chain comes out "equal" exactly when no field pair differs from
/// position `i` on.
proof fn lemma_cmp_fields_equal_iff(xs: Seq<u64>, ys: Seq<u64>, i: int)
    requires
        0 <= i <= xs.len(),
    ensures
        (cmp_fields_from(xs, ys, i) == Order::Equal) <==> (forall|k: int|
            i <= k < xs.len() ==> xs[k] == ys[k]),
    decreases xs.len() - i,
{
    if i < xs.len() {
        lemma_cmp_fields_equal_iff(xs, ys, i + 1);
    }
}

/// Ordering agrees with equality: a comparison comes out "equal" exactly
/// when the two operands are equal — same variant, no field pair differing.
pub proof fn lemma_cmp_consistent_with_eq(kind: TypeKind, x: ShapeValue, y: ShapeValue)
    requires
        fits(kind, x),
        fits(kind, y),
        !(kind is Union),
    ensures
        (cmp_sem(kind, x, y) == Order::Equal) == eq_sem(kind, x, y),
{
    if x.variant == y.variant {
        lemma_cmp_fields_equal_iff(x.fields@, y.fields@, 0);
    }
}

/// The marked count over a longer prefix is no smaller.
proof fn lemma_marked_count_mono(vs: Seq<VariantDecl>, m: int, n: int)
    requires
        m <= n,
    ensures
        marked_count_upto(vs, m) <= marked_count_upto(vs, n),
    decreases n - m,
{
    if m < n {
        lemma_marked_count_mono(vs, m, n - 1);
    }
}

/// A marked count is never negative.
proof fn lemma_marked_count_nonneg(vs: Seq<VariantDecl>, n: int)
    ensures
        marked_count_upto(vs, n) >= 0,
    decreases n,
{
    if n > 0 {
        lemma_marked_count_nonneg(vs, n - 1);
    }
}

/// A marked variant inside a prefix makes its count positive.
proof fn lemma_marked_in_prefix(vs: Seq<VariantDecl>, k: int, n: int)
    requires
        0 <= k < n <= vs.len(),
        vs[k].is_default_marked,
    ensures
        marked_count_upto(vs, n) >= 1,
    decreases n,
{
    if k < n - 1 {
        lemma_marked_in_prefix(vs, k, n - 1);
    } else {
        lemma_marked_count_nonneg(vs, n - 1);
    }
}

/// Two distinct marked variants make the count at least two.
proof fn lemma_two_marked(vs: Seq<VariantDecl>, k1: int, k2: int)
    requires
        0 <= k1 < k2 < vs.len(),
        vs[k1].is_default_marked,
        vs[k2].is_default_marked,
    ensures
        marked_count(vs) >= 2,
{
    lemma_marked_in_prefix(vs, k1, k2);
    assert(marked_count_upto(vs, k2 + 1) >= 2);
    lemma_marked_count_mono(vs, k2 + 1, vs.len() as int);
}

/// What the first-marked scan yields: a position no smaller than the start,
/// at most the length, marked when in range, with nothing marked before it.
proof fn lemma_first_marked_props(vs: Seq<VariantDecl>, i: int)
    requires
        0 <= i <= vs.len(),
    ensures
        i <= first_marked_from(vs, i) <= vs.len(),
        first_marked_from(vs, i) < vs.len() ==> vs[first_marked_from(vs, i)].is_default_marked,
        forall|j: int| i <= j < first_marked_from(vs, i) ==> !vs[j].is_default_marked,
    decreases vs.len() - i,
{
    if i < vs.len() && !vs[i].is_default_marked {
        lemma_first_marked_props(vs, i + 1);
    }
}

/// Default selects exactly the marked variant: when one variant alone
/// carries the default marker, the default construction builds that variant
/// and no other.
pub proof fn lemma_default_selects_marked(vs: Seq<VariantDecl>, k: int)
    requires
        0 <= k < vs.len(),
        vs[k].is_default_marked,
        marked_count(vs) == 1,
    ensures
        first_marked_from(vs, 0) == k,
{
    let f = first_marked_from(vs, 0);
    lemma_first_marked_props(vs, 0);
    if f < k {
        lemma_two_marked(vs, f, k);
        assert(false);
    }
    if f > k {
        assert(!vs[k].is_default_marked);
        assert(false);
    }
}

} // verus!
