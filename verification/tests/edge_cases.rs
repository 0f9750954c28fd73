use enum_variant_accessors::{
    derive_enum_as_variant, derive_enum_is_variant, eval_as, Attribute, Borrowed, Data,
    DeriveInput, EnumValue, Fields, Generics, NamedField, NamedRef, Variant,
};

#[derive(Debug, PartialEq)]
enum Val {
    Str(&'static str),
    I8(i8),
    Bool(bool),
    Usize(usize),
    U64(u64),
}

fn unit(name: &str) -> Variant {
    Variant { name: name.to_string(), fields: Fields::Unit }
}

fn tuple(name: &str, tys: &[&str]) -> Variant {
    Variant { name: name.to_string(), fields: Fields::Unnamed(tys.iter().map(|t| t.to_string()).collect()) }
}

fn field(attrs: &[&str], name: &str, ty: &str) -> NamedField {
    NamedField { attrs: attrs.iter().map(|a| a.to_string()).collect(), name: name.to_string(), ty: ty.to_string() }
}

fn derive_attr(names: &[&str]) -> Attribute {
    Attribute::Derive(names.join(", "))
}

/// #[derive(EnumIsVariant, EnumAsVariant, Debug, Clone, Copy, PartialEq, Eq, PartialOrd, Ord, Hash)]
/// enum Weird { A, B(&'static str), C(i8, bool, usize), D { #[allow(unused)] flag: bool, value: u64 } }
fn weird() -> DeriveInput {
    DeriveInput {
        attrs: vec![derive_attr(&[
            "EnumIsVariant", "EnumAsVariant", "Debug", "Clone", "Copy", "PartialEq", "Eq",
            "PartialOrd", "Ord", "Hash",
        ])],
        vis: String::new(),
        ident: "Weird".to_string(),
        generics: Generics { params: vec![], where_clause: None },
        data: Data::Enum(vec![
            unit("A"),
            tuple("B", &["&'static str"]),
            tuple("C", &["i8", "bool", "usize"]),
            Variant {
                name: "D".to_string(),
                fields: Fields::Named(vec![field(&["#[allow(unused)]"], "flag", "bool"), field(&[], "value", "u64")]),
            },
        ]),
    }
}

fn value(variant: &str, fields: Vec<Val>) -> EnumValue<Val> {
    EnumValue { variant: variant.to_string(), fields }
}

fn call_as<'v>(input: &DeriveInput, method: &str, v: &'v EnumValue<Val>) -> Option<Borrowed<'v, Val>> {
    eval_as(input, method, v).expect("the method is generated")
}

#[test]
fn references_are_double_refs_as_expected() {
    let w = weird();
    let e = value("B", vec![Val::Str("x")]);
    let got = call_as(&w, "as_b", &e).unwrap();
    match got {
        Borrowed::One(r) => assert_eq!(*r, Val::Str("x")),
        other => panic!("unexpected {other:?}"),
    }
    let code = derive_enum_as_variant(&w);
    syn::parse_file(&code).unwrap();
    assert!(code.contains("pub fn as_b(&self) -> ::core::option::Option<&'_ &'static str>"));
}

#[test]
fn multiple_unnamed_tuple_of_refs() {
    let w = weird();
    let e = value("C", vec![Val::I8(-1), Val::Bool(true), Val::Usize(42)]);
    match call_as(&w, "as_c", &e).unwrap() {
        Borrowed::Tuple(refs) => {
            assert_eq!((refs[0], refs[1], refs[2]), (&Val::I8(-1), &Val::Bool(true), &Val::Usize(42)));
        },
        other => panic!("unexpected {other:?}"),
    }
}

#[test]
fn named_keeps_field_attrs_and_is_borrowed() {
    let w = weird();
    let e = value("D", vec![Val::Bool(true), Val::U64(9)]);
    let d = call_as(&w, "as_d", &e).unwrap();
    assert_eq!(
        d,
        Borrowed::Named(vec![
            NamedRef { name: "flag".to_string(), value: &Val::Bool(true) },
            NamedRef { name: "value".to_string(), value: &Val::U64(9) },
        ])
    );
    let _ = format!("{d:?}");
    let code = derive_enum_as_variant(&w);
    syn::parse_file(&code).unwrap();
    // The helper struct mirrors the whitelisted derives, so it is `Debug`, and
    // keeps the field's attributes; its fields are borrows.
    assert!(code.starts_with(
        "#[derive(Debug, Clone, Copy, PartialEq, Eq, PartialOrd, Ord, Hash)] struct WeirdD<'a>  { #[allow(unused)] pub flag: &'a bool, pub value: &'a u64, "
    ));
    assert!(code.contains(
        "pub fn as_d(&self) -> ::core::option::Option<WeirdD<'_>> { match self { Self::D { flag: ref flag, value: ref value, } => ::core::option::Option::Some(WeirdD { flag, value, }), _ => ::core::option::Option::None, } }"
    ));
    assert!(code.contains("pub value: &'a u64, }"));
    // Without generic parameters the helper struct holds the fields alone.
    assert!(!code.contains("__marker"));
    assert!(!code.contains("as_d_mut"));
    syn::parse_file(&derive_enum_is_variant(&w)).unwrap();
}
