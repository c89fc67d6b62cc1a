use force_derive::semantics::{eval_eq, eval_ne, ShapeValue};
use force_derive::shape::{FieldList, GenericsDecl, TypeKind, TypeShape, VariantDecl};

fn named(fields: &[&str]) -> FieldList {
    FieldList::Named(fields.iter().map(|f| f.to_string()).collect())
}

fn plain() -> GenericsDecl {
    GenericsDecl { params: vec![], where_clauses: vec![] }
}

fn shape(name: &str, kind: TypeKind) -> TypeShape {
    TypeShape { name: name.to_string(), generics: plain(), kind }
}

fn variant(name: &str, fields: FieldList) -> VariantDecl {
    VariantDecl { name: name.to_string(), fields, is_default_marked: false }
}

fn value(variant: usize, fields: &[u64]) -> ShapeValue {
    ShapeValue { variant, fields: fields.to_vec() }
}

fn partial_ord(shape: &TypeShape, lhs: &ShapeValue, rhs: &ShapeValue) -> (bool, bool) {
    (eval_eq(shape, lhs, rhs), eval_ne(shape, lhs, rhs))
}

fn enum_partial_ord() -> TypeShape {
    shape(
        "EnumPartialOrd",
        TypeKind::Enum(vec![
            variant("Struct0", named(&[])),
            variant("Struct1", named(&["foo"])),
            variant("Struct2", named(&["foo", "bar"])),
            variant("Tuple0", FieldList::Positional(0)),
            variant("Tuple1", FieldList::Positional(1)),
            variant("Tuple2", FieldList::Positional(2)),
            variant("Unit", FieldList::Empty),
        ]),
    )
}

#[test]
fn test_partial_ord_struct() {
    let s0 = shape("StructPartialOrd0", TypeKind::Struct(named(&[])));
    assert_eq!(partial_ord(&s0, &value(0, &[]), &value(0, &[])), (true, false));

    let s1 = shape("StructPartialOrd1", TypeKind::Struct(named(&["foo"])));
    assert_eq!(partial_ord(&s1, &value(0, &[0]), &value(0, &[0])), (true, false));

    let s2 = shape("StructPartialOrd2", TypeKind::Struct(named(&["foo", "bar"])));
    assert_eq!(partial_ord(&s2, &value(0, &[0, 2]), &value(0, &[0, 2])), (true, false));
    assert_eq!(partial_ord(&s2, &value(0, &[0, 2]), &value(0, &[0, 3])), (false, true));
}

#[test]
fn test_partial_ord_tuple() {
    let t0 = shape("TuplePartialOrd0", TypeKind::Struct(FieldList::Positional(0)));
    assert_eq!(partial_ord(&t0, &value(0, &[]), &value(0, &[])), (true, false));

    let t1 = shape("TuplePartialOrd1", TypeKind::Struct(FieldList::Positional(1)));
    assert_eq!(partial_ord(&t1, &value(0, &[0]), &value(0, &[0])), (true, false));

    let t2 = shape("TuplePartialOrd2", TypeKind::Struct(FieldList::Positional(2)));
    assert_eq!(partial_ord(&t2, &value(0, &[0, 2]), &value(0, &[0, 2])), (true, false));
    assert_eq!(partial_ord(&t2, &value(0, &[0, 2]), &value(0, &[0, 3])), (false, true));
}

#[test]
fn test_partial_ord_unit() {
    let unit = shape("UnitPartialOrd", TypeKind::Struct(FieldList::Empty));
    assert_eq!(partial_ord(&unit, &value(0, &[]), &value(0, &[])), (true, false));
}

#[test]
fn test_partial_ord_enum_1() {
    let single = shape(
        "EnumPartialOrd1",
        TypeKind::Enum(vec![variant("Tuple1", FieldList::Positional(1))]),
    );
    assert_eq!(partial_ord(&single, &value(0, &[0]), &value(0, &[0])), (true, false));
}

#[test]
fn test_partial_ord_enum() {
    let shape = enum_partial_ord();

    let all_values = [
        value(0, &[]),
        value(1, &[0]),
        value(2, &[0, 2]),
        value(2, &[0, 3]),
        value(3, &[]),
        value(4, &[0]),
        value(5, &[0, 2]),
        value(5, &[0, 3]),
        value(6, &[]),
    ];

    for (i, lhs) in all_values.iter().enumerate() {
        for (j, rhs) in all_values.iter().enumerate() {
            assert_eq!(partial_ord(&shape, lhs, rhs), (i == j, i != j));
        }
    }
}

#[test]
fn test_partial_ord_special_identifiers() {
    // A field (or variant) deliberately named like the comparison operand.
    let s = shape("SpecialIdentifierStructPartialOrd", TypeKind::Struct(named(&["other"])));
    assert_eq!(partial_ord(&s, &value(0, &[2]), &value(0, &[2])), (true, false));
    assert_eq!(partial_ord(&s, &value(0, &[2]), &value(0, &[3])), (false, true));

    let e = shape(
        "SpecialIdentifierEnumPartialOrd",
        TypeKind::Enum(vec![variant("Struct", named(&["other"]))]),
    );
    assert_eq!(partial_ord(&e, &value(0, &[2]), &value(0, &[2])), (true, false));
    assert_eq!(partial_ord(&e, &value(0, &[2]), &value(0, &[3])), (false, true));
}
