use force_derive::clone::derive_clone;
use force_derive::copy::derive_copy;
use force_derive::debug::derive_debug;
use force_derive::default::derive_default;
use force_derive::eq::derive_eq;
use force_derive::hash::derive_hash;
use force_derive::marker_trait::derive_marker_trait;
use force_derive::partial_eq::derive_partial_eq;
use force_derive::partial_ord::derive_partial_ord;
use force_derive::semantics::{
    eval_clone, eval_debug, eval_default, eval_eq, eval_hash, eval_ne, eval_partial_cmp, Order,
    ShapeValue,
};
use force_derive::shape::{FieldList, GenericsDecl, TypeKind, TypeShape, VariantDecl};
use force_derive::text::dec_string;
use force_derive::utilities::get_field_identifiers;

fn named(fields: &[&str]) -> FieldList {
    FieldList::Named(fields.iter().map(|f| f.to_string()).collect())
}

fn plain() -> GenericsDecl {
    GenericsDecl { params: vec![], where_clauses: vec![] }
}

fn shape(name: &str, kind: TypeKind) -> TypeShape {
    TypeShape { name: name.to_string(), generics: plain(), kind }
}

fn variant(name: &str, fields: FieldList) -> VariantDecl {
    VariantDecl { name: name.to_string(), fields, is_default_marked: false }
}

fn value(variant: usize, fields: &[u64]) -> ShapeValue {
    ShapeValue { variant, fields: fields.to_vec() }
}

fn rank_enum() -> TypeShape {
    shape(
        "Ranked",
        TypeKind::Enum(vec![
            variant("A", FieldList::Empty),
            variant("B", FieldList::Positional(1)),
        ]),
    )
}

#[test]
fn test_cross_variant_ordering_uses_rank() {
    let e = rank_enum();
    // A comes first, so A < B(0) whatever B holds.
    assert_eq!(eval_partial_cmp(&e, &value(0, &[]), &value(1, &[0])), Order::Less);
    assert_eq!(eval_partial_cmp(&e, &value(1, &[0]), &value(0, &[])), Order::Greater);
    // The field content of the later variant cannot change the outcome.
    assert_eq!(eval_partial_cmp(&e, &value(0, &[]), &value(1, &[5])), Order::Less);
    assert_eq!(eval_partial_cmp(&e, &value(1, &[u64::MAX]), &value(0, &[])), Order::Greater);
}

#[test]
fn test_same_variant_ordering_is_lexicographic() {
    let t2 = shape("Pair", TypeKind::Struct(FieldList::Positional(2)));
    assert_eq!(eval_partial_cmp(&t2, &value(0, &[1, 2]), &value(0, &[1, 3])), Order::Less);
    assert_eq!(eval_partial_cmp(&t2, &value(0, &[2, 0]), &value(0, &[1, 9])), Order::Greater);
    assert_eq!(eval_partial_cmp(&t2, &value(0, &[4, 4]), &value(0, &[4, 4])), Order::Equal);
    // The first non-equal field decides; later fields are never reached.
    assert_eq!(eval_partial_cmp(&t2, &value(0, &[1, 9]), &value(0, &[2, 0])), Order::Less);
}

#[test]
fn test_hash_discriminant_before_fields() {
    // enum { X, Y(T) }: hashing Y(v) records the rank of Y, then v.
    let two = shape(
        "TwoVariants",
        TypeKind::Enum(vec![
            variant("X", FieldList::Empty),
            variant("Y", FieldList::Positional(1)),
        ]),
    );
    let v: u64 = 42;
    assert_eq!(eval_hash(&two, &value(1, &[v])), vec![1, v]);

    // enum { Only(T) }: hashing Only(v) records v alone.
    let single = shape("OneVariant", TypeKind::Enum(vec![variant("Only", FieldList::Positional(1))]));
    assert_eq!(eval_hash(&single, &value(0, &[v])), vec![v]);
}

#[test]
fn test_empty_struct_identities() {
    let empty = shape("Empty", TypeKind::Struct(named(&[])));
    let x = value(0, &[]);
    let y = value(0, &[]);
    assert!(eval_eq(&empty, &x, &y));
    assert!(!eval_ne(&empty, &x, &y));
    assert_eq!(eval_partial_cmp(&empty, &x, &y), Order::Equal);
    assert_eq!(eval_hash(&empty, &x), Vec::<u64>::new());
    assert_eq!(eval_debug(&empty, &x, &vec![]), "Empty");
    let cloned = eval_clone(&x);
    assert_eq!((cloned.variant, cloned.fields), (0, vec![]));
}

#[test]
fn test_default_marking_diagnostics() {
    let message = "Use a single `#[default]` attribute to mark a variant as the default one.";

    let none_marked = shape(
        "NoMarker",
        TypeKind::Enum(vec![variant("A", FieldList::Empty), variant("B", FieldList::Empty)]),
    );
    let err = derive_default(&none_marked).unwrap_err();
    assert_eq!(err.message, message);
    assert_eq!(err.anchor, "NoMarker");
    let err = eval_default(&none_marked).unwrap_err();
    assert_eq!(err.message, message);

    let both_marked = shape(
        "TwoMarkers",
        TypeKind::Enum(vec![
            VariantDecl {
                name: "A".to_string(),
                fields: FieldList::Empty,
                is_default_marked: true,
            },
            VariantDecl {
                name: "B".to_string(),
                fields: FieldList::Empty,
                is_default_marked: true,
            },
        ]),
    );
    let err = derive_default(&both_marked).unwrap_err();
    assert_eq!(err.message, message);
    assert_eq!(err.anchor, "TwoMarkers");
    assert!(eval_default(&both_marked).is_err());
}

#[test]
fn test_union_handling_per_strategy() {
    let u = shape("Blob", TypeKind::Union);

    // Field-wise strategies reject a union.
    assert_eq!(
        derive_partial_eq(&u).unwrap_err().message,
        "Cannot derive `PartialEq` on a `union`.",
    );
    assert_eq!(
        derive_partial_ord(&u).unwrap_err().message,
        "Cannot derive `PartialOrd` on a `union`.",
    );
    assert_eq!(derive_hash(&u).unwrap_err().message, "Cannot derive `Hash` on a `union`.");
    assert_eq!(derive_debug(&u).unwrap_err().message, "Cannot derive `Debug` on a `union`.");

    // Cloning copies the whole value bitwise; default zero-fills it; the
    // marker traits need no body at all.
    assert_eq!(
        derive_clone(&u),
        "#[automatically_derived] impl ::core::clone::Clone for Blob { fn clone(&self) -> Self { *self } }",
    );
    assert_eq!(
        derive_default(&u).unwrap(),
        "#[automatically_derived] impl ::core::default::Default for Blob { fn default() -> Self { ::core::mem::zeroed() } }",
    );
    assert_eq!(derive_copy(&u), "#[automatically_derived] impl ::core::marker::Copy for Blob {}");
    assert_eq!(derive_eq(&u), "#[automatically_derived] impl ::core::cmp::Eq for Blob {}");
}

#[test]
fn test_marker_trait_is_reusable() {
    let s = shape("Token", TypeKind::Struct(named(&["id"])));
    assert_eq!(
        derive_marker_trait(&s, "::core::marker::Send"),
        "#[automatically_derived] impl ::core::marker::Send for Token {}",
    );
}

#[test]
fn test_synthesized_identifiers() {
    assert_eq!(get_field_identifiers(0), Vec::<String>::new());
    assert_eq!(get_field_identifiers(3), vec!["field_0", "field_1", "field_2"]);
    // Positions of two digits keep every name distinct.
    let ids = get_field_identifiers(12);
    assert_eq!(ids[9], "field_9");
    assert_eq!(ids[10], "field_10");
    assert_eq!(ids[11], "field_11");
}

#[test]
fn test_decimal_rendering() {
    assert_eq!(dec_string(0), "0");
    assert_eq!(dec_string(7), "7");
    assert_eq!(dec_string(10), "10");
    assert_eq!(dec_string(105), "105");
    assert_eq!(dec_string(9876), "9876");
}

#[test]
fn test_eq_reflexive_and_variant_discriminating() {
    let e = rank_enum();
    let a = value(0, &[]);
    let b = value(1, &[3]);
    // Reflexive on every value.
    assert!(eval_eq(&e, &a, &a));
    assert!(!eval_ne(&e, &a, &a));
    assert!(eval_eq(&e, &b, &b));
    assert!(!eval_ne(&e, &b, &b));
    // Different variants are never equal, whatever the fields hold.
    assert!(!eval_eq(&e, &a, &b));
    assert!(eval_ne(&e, &a, &b));
    assert!(!eval_eq(&e, &b, &a));
    assert!(eval_ne(&e, &b, &a));
}
