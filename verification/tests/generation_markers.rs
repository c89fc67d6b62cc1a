use force_derive::copy::derive_copy;
use force_derive::eq::derive_eq;
use force_derive::shape::{FieldList, GenericsDecl, TypeKind, TypeShape, VariantDecl};

fn named(fields: &[&str]) -> FieldList {
    FieldList::Named(fields.iter().map(|f| f.to_string()).collect())
}

fn plain() -> GenericsDecl {
    GenericsDecl { params: vec![], where_clauses: vec![] }
}

fn generic_t() -> GenericsDecl {
    GenericsDecl { params: vec!["T".to_string()], where_clauses: vec![] }
}

fn generic_t_where() -> GenericsDecl {
    GenericsDecl {
        params: vec!["T".to_string()],
        where_clauses: vec!["u32: Copy".to_string()],
    }
}

fn foo(generics: GenericsDecl, kind: TypeKind) -> TypeShape {
    TypeShape { name: "Foo".to_string(), generics, kind }
}

fn variant(name: &str, fields: FieldList) -> VariantDecl {
    VariantDecl { name: name.to_string(), fields, is_default_marked: false }
}

fn seven_variants() -> Vec<VariantDecl> {
    vec![
        variant("Struct0", named(&[])),
        variant("Struct1", named(&["foo"])),
        variant("Struct2", named(&["foo", "bar"])),
        variant("Tuple0", FieldList::Positional(0)),
        variant("Tuple1", FieldList::Positional(1)),
        variant("Tuple2", FieldList::Positional(2)),
        variant("Unit", FieldList::Empty),
    ]
}

#[test]
fn test_derive_copy() {
    let bare = "#[automatically_derived] impl ::core::marker::Copy for Foo {}";
    let with_t = "#[automatically_derived] impl<T> ::core::marker::Copy for Foo<T> {}";
    let with_t_where = "#[automatically_derived] impl<T> ::core::marker::Copy for Foo<T> where u32: Copy, {}";

    // Empty struct.
    assert_eq!(derive_copy(&foo(plain(), TypeKind::Struct(named(&[])))), bare);
    // Struct with a single field.
    assert_eq!(derive_copy(&foo(generic_t(), TypeKind::Struct(named(&["foo"])))), with_t);
    // Struct with two fields and generic constraints.
    assert_eq!(
        derive_copy(&foo(generic_t_where(), TypeKind::Struct(named(&["foo", "bar"])))),
        with_t_where,
    );
    // Empty tuple.
    assert_eq!(derive_copy(&foo(plain(), TypeKind::Struct(FieldList::Positional(0)))), bare);
    // Tuple with a single field.
    assert_eq!(
        derive_copy(&foo(generic_t(), TypeKind::Struct(FieldList::Positional(1)))),
        with_t,
    );
    // Tuple with two fields and generic constraints.
    assert_eq!(
        derive_copy(&foo(generic_t_where(), TypeKind::Struct(FieldList::Positional(2)))),
        with_t_where,
    );
    // Unit.
    assert_eq!(derive_copy(&foo(plain(), TypeKind::Struct(FieldList::Empty))), bare);
    // Empty enum.
    assert_eq!(derive_copy(&foo(plain(), TypeKind::Enum(vec![]))), bare);
    // Enum with a single variant.
    assert_eq!(
        derive_copy(&foo(
            generic_t(),
            TypeKind::Enum(vec![variant("Tuple1", FieldList::Positional(1))]),
        )),
        with_t,
    );
    // Enum.
    assert_eq!(
        derive_copy(&foo(generic_t_where(), TypeKind::Enum(seven_variants()))),
        with_t_where,
    );
    // Union.
    assert_eq!(derive_copy(&foo(plain(), TypeKind::Union)), bare);
}

#[test]
fn test_derive_eq() {
    let bare = "#[automatically_derived] impl ::core::cmp::Eq for Foo {}";
    let with_t = "#[automatically_derived] impl<T> ::core::cmp::Eq for Foo<T> {}";
    let with_t_where = "#[automatically_derived] impl<T> ::core::cmp::Eq for Foo<T> where u32: Copy, {}";

    // Empty struct.
    assert_eq!(derive_eq(&foo(plain(), TypeKind::Struct(named(&[])))), bare);
    // Struct with a single field.
    assert_eq!(derive_eq(&foo(generic_t(), TypeKind::Struct(named(&["foo"])))), with_t);
    // Struct with two fields and generic constraints.
    assert_eq!(
        derive_eq(&foo(generic_t_where(), TypeKind::Struct(named(&["foo", "bar"])))),
        with_t_where,
    );
    // Empty tuple.
    assert_eq!(derive_eq(&foo(plain(), TypeKind::Struct(FieldList::Positional(0)))), bare);
    // Tuple with a single field.
    assert_eq!(derive_eq(&foo(generic_t(), TypeKind::Struct(FieldList::Positional(1)))), with_t);
    // Tuple with two fields and generic constraints.
    assert_eq!(
        derive_eq(&foo(generic_t_where(), TypeKind::Struct(FieldList::Positional(2)))),
        with_t_where,
    );
    // Unit.
    assert_eq!(derive_eq(&foo(plain(), TypeKind::Struct(FieldList::Empty))), bare);
    // Empty enum.
    assert_eq!(derive_eq(&foo(plain(), TypeKind::Enum(vec![]))), bare);
    // Enum with a single variant.
    assert_eq!(
        derive_eq(&foo(
            generic_t(),
            TypeKind::Enum(vec![variant("Tuple1", FieldList::Positional(1))]),
        )),
        with_t,
    );
    // Enum.
    assert_eq!(
        derive_eq(&foo(generic_t_where(), TypeKind::Enum(seven_variants()))),
        with_t_where,
    );
}
