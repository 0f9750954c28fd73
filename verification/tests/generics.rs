use enum_variant_accessors::{
    derive_enum_as_variant, derive_enum_is_variant, eval_as, eval_is, Attribute, Borrowed, Data,
    DeriveInput, EnumValue, Fields, GenericParam, Generics, NamedField, NamedRef, Variant,
};

#[derive(Debug, PartialEq)]
enum Val {
    U32(u32),
    Array(Vec<u32>),
    Usize(usize),
}

/// #[derive(EnumIsVariant, EnumAsVariant, Debug, Clone)]
/// enum Bag<'a, T, const N: usize> where T: 'a + core::fmt::Debug {
///     Empty, One(&'a T), Many(&'a [T; N]), Named { item: &'a T, count: usize } }
fn bag() -> DeriveInput {
    DeriveInput {
        attrs: vec![Attribute::Derive(["EnumIsVariant", "EnumAsVariant", "Debug", "Clone"].join(", "))],
        vis: String::new(),
        ident: "Bag".to_string(),
        generics: Generics {
            params: vec![
                GenericParam::Lifetime { attrs: vec![], name: "'a".to_string(), bounds: String::new() },
                GenericParam::Type { attrs: vec![], name: "T".to_string(), bounds: String::new(), default: None },
                GenericParam::Const { attrs: vec![], name: "N".to_string(), ty: "usize".to_string(), default: None },
            ],
            where_clause: Some("where T: 'a + core::fmt::Debug".to_string()),
        },
        data: Data::Enum(vec![
            Variant { name: "Empty".to_string(), fields: Fields::Unit },
            Variant { name: "One".to_string(), fields: Fields::Unnamed(vec!["&'a T".to_string()]) },
            Variant { name: "Many".to_string(), fields: Fields::Unnamed(vec!["&'a [T; N]".to_string()]) },
            Variant {
                name: "Named".to_string(),
                fields: Fields::Named(vec![
                    NamedField { attrs: vec![], name: "item".to_string(), ty: "&'a T".to_string() },
                    NamedField { attrs: vec![], name: "count".to_string(), ty: "usize".to_string() },
                ]),
            },
        ]),
    }
}

fn value(variant: &str, fields: Vec<Val>) -> EnumValue<Val> {
    EnumValue { variant: variant.to_string(), fields }
}

#[test]
fn generics_and_where_clause() {
    let b = bag();
    // x = 7u32
    let a = value("One", vec![Val::U32(7)]);
    assert_eq!(eval_is(&b, "is_one", &a), Some(true));
    assert_eq!(eval_as(&b, "as_one", &a), Some(Some(Borrowed::One(&Val::U32(7)))));

    let m = value("Many", vec![Val::Array(vec![1, 2, 3])]);
    assert_eq!(eval_is(&b, "is_many", &m), Some(true));
    match eval_as(&b, "as_many", &m).unwrap().unwrap() {
        Borrowed::One(Val::Array(got)) => assert_eq!(got.len(), 3),
        other => panic!("unexpected {other:?}"),
    }

    let n = value("Named", vec![Val::U32(7), Val::Usize(2)]);
    let p = eval_as(&b, "as_named", &n).unwrap().unwrap();
    assert_eq!(
        p,
        Borrowed::Named(vec![
            NamedRef { name: "item".to_string(), value: &Val::U32(7) },
            NamedRef { name: "count".to_string(), value: &Val::Usize(2) },
        ])
    );

    let code = derive_enum_as_variant(&b);
    syn::parse_file(&code).unwrap();
    // The enum declares 'a already, so the helper's borrow gets another lifetime.
    assert!(code.starts_with(
        "#[derive(Debug, Clone)] struct BagNamed<'aa, 'a, T, const N: usize> where T: 'a + core::fmt::Debug { pub item: &'aa &'a T, pub count: &'aa usize, #[doc(hidden)] pub __marker: ::core::marker::PhantomData<&'aa Bag<'a, T, N>>, }"
    ));
    assert!(code.contains("impl<'a, T, const N: usize> Bag<'a, T, N> where T: 'a + core::fmt::Debug {"));
    assert!(code.contains("-> ::core::option::Option<BagNamed<'_, 'a, T, N>>"));
    let is_code = derive_enum_is_variant(&b);
    syn::parse_file(&is_code).unwrap();
    assert!(is_code.contains("matches!(self, Bag::Named { .. })"));
}
