use force_derive::hash::derive_hash;
use force_derive::shape::{FieldList, GenericsDecl, TypeKind, TypeShape, VariantDecl};

fn named(fields: &[&str]) -> FieldList {
    FieldList::Named(fields.iter().map(|f| f.to_string()).collect())
}

fn plain() -> GenericsDecl {
    GenericsDecl { params: vec![], where_clauses: vec![] }
}

fn generic_t() -> GenericsDecl {
    GenericsDecl { params: vec!["T".to_string()], where_clauses: vec![] }
}

fn generic_t_where() -> GenericsDecl {
    GenericsDecl {
        params: vec!["T".to_string()],
        where_clauses: vec!["u32: Copy".to_string()],
    }
}

fn foo(generics: GenericsDecl, kind: TypeKind) -> TypeShape {
    TypeShape { name: "Foo".to_string(), generics, kind }
}

fn variant(name: &str, fields: FieldList) -> VariantDecl {
    VariantDecl { name: name.to_string(), fields, is_default_marked: false }
}

fn seven_variants() -> Vec<VariantDecl> {
    vec![
        variant("Struct0", named(&[])),
        variant("Struct1", named(&["foo"])),
        variant("Struct2", named(&["foo", "bar"])),
        variant("Tuple0", FieldList::Positional(0)),
        variant("Tuple1", FieldList::Positional(1)),
        variant("Tuple2", FieldList::Positional(2)),
        variant("Unit", FieldList::Empty),
    ]
}

#[test]
fn test_derive_hash() {
    let nothing = "#[automatically_derived] impl ::core::hash::Hash for Foo { fn hash<H: ::core::hash::Hasher>(&self, state: &mut H) {} }";

    // Empty struct.
    assert_eq!(derive_hash(&foo(plain(), TypeKind::Struct(named(&[])))).unwrap(), nothing);

    // Struct with a single field.
    assert_eq!(
        derive_hash(&foo(generic_t(), TypeKind::Struct(named(&["foo"])))).unwrap(),
        "#[automatically_derived] impl<T> ::core::hash::Hash for Foo<T> { fn hash<H: ::core::hash::Hasher>(&self, state: &mut H) { ::core::hash::Hash::hash(&self.foo, state); } }",
    );

    // Struct with two fields and generic constraints.
    assert_eq!(
        derive_hash(&foo(generic_t_where(), TypeKind::Struct(named(&["foo", "bar"])))).unwrap(),
        "#[automatically_derived] impl<T> ::core::hash::Hash for Foo<T> where u32: Copy, { fn hash<H: ::core::hash::Hasher>(&self, state: &mut H) { ::core::hash::Hash::hash(&self.foo, state); ::core::hash::Hash::hash(&self.bar, state); } }",
    );

    // Empty tuple.
    assert_eq!(
        derive_hash(&foo(plain(), TypeKind::Struct(FieldList::Positional(0)))).unwrap(),
        nothing,
    );

    // Tuple with a single field.
    assert_eq!(
        derive_hash(&foo(generic_t(), TypeKind::Struct(FieldList::Positional(1)))).unwrap(),
        "#[automatically_derived] impl<T> ::core::hash::Hash for Foo<T> { fn hash<H: ::core::hash::Hasher>(&self, state: &mut H) { ::core::hash::Hash::hash(&self.0, state); } }",
    );

    // Tuple with two fields and generic constraints.
    assert_eq!(
        derive_hash(&foo(generic_t_where(), TypeKind::Struct(FieldList::Positional(2))))
            .unwrap(),
        "#[automatically_derived] impl<T> ::core::hash::Hash for Foo<T> where u32: Copy, { fn hash<H: ::core::hash::Hasher>(&self, state: &mut H) { ::core::hash::Hash::hash(&self.0, state); ::core::hash::Hash::hash(&self.1, state); } }",
    );

    // Unit.
    assert_eq!(derive_hash(&foo(plain(), TypeKind::Struct(FieldList::Empty))).unwrap(), nothing);

    // Empty enum.
    assert_eq!(
        derive_hash(&foo(plain(), TypeKind::Enum(vec![]))).unwrap(),
        "#[automatically_derived] impl ::core::hash::Hash for Foo { fn hash<H: ::core::hash::Hasher>(&self, state: &mut H) { match *self {} } }",
    );

    // Enum with a single variant.
    assert_eq!(
        derive_hash(&foo(
            generic_t(),
            TypeKind::Enum(vec![variant("Tuple1", FieldList::Positional(1))]),
        ))
        .unwrap(),
        "#[automatically_derived] impl<T> ::core::hash::Hash for Foo<T> { fn hash<H: ::core::hash::Hasher>(&self, state: &mut H) { match self { Self::Tuple1(field_0,) => { ::core::hash::Hash::hash(field_0, state); }, } } }",
    );

    // Enum.
    assert_eq!(
        derive_hash(&foo(generic_t_where(), TypeKind::Enum(seven_variants()))).unwrap(),
        "#[automatically_derived] impl<T> ::core::hash::Hash for Foo<T> where u32: Copy, { fn hash<H: ::core::hash::Hasher>(&self, state: &mut H) { ::core::hash::Hash::hash(&::core::mem::discriminant(self), state); match self { Self::Struct0 {} => {}, Self::Struct1 { foo: field_foo, } => { ::core::hash::Hash::hash(field_foo, state); }, Self::Struct2 { foo: field_foo, bar: field_bar, } => { ::core::hash::Hash::hash(field_foo, state); ::core::hash::Hash::hash(field_bar, state); }, Self::Tuple0() => {}, Self::Tuple1(field_0,) => { ::core::hash::Hash::hash(field_0, state); }, Self::Tuple2(field_0, field_1,) => { ::core::hash::Hash::hash(field_0, state); ::core::hash::Hash::hash(field_1, state); }, Self::Unit => {}, } } }",
    );

    // Union.
    let err = derive_hash(&foo(plain(), TypeKind::Union)).unwrap_err();
    assert_eq!(err.message, "Cannot derive `Hash` on a `union`.");
    assert_eq!(err.anchor, "Foo");
}
