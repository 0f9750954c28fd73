use enum_variant_accessors::{
    derive_enum_as_variant, derive_enum_is_variant, eval_as, eval_is, Attribute, Borrowed, Data,
    DeriveInput, EnumValue, Fields, GenericParam, Generics, NamedField, NamedRef, Variant,
};

#[derive(Debug, PartialEq)]
enum Val {
    Text(String),
    U8(u8),
    U16(u16),
    Usize(usize),
}

/// #[derive(EnumIsVariant, EnumAsVariant, Debug, Clone, PartialEq, Eq)]
/// enum Msg<T> { Unit, One(T), Two(u8, u16), Record { x: usize, y: usize } }
fn msg() -> DeriveInput {
    DeriveInput {
        attrs: vec![Attribute::Derive(["EnumIsVariant", "EnumAsVariant", "Debug", "Clone", "PartialEq", "Eq"].join(", "))],
        vis: String::new(),
        ident: "Msg".to_string(),
        generics: Generics {
            params: vec![GenericParam::Type { attrs: vec![], name: "T".to_string(), bounds: String::new(), default: None }],
            where_clause: None,
        },
        data: Data::Enum(vec![
            Variant { name: "Unit".to_string(), fields: Fields::Unit },
            Variant { name: "One".to_string(), fields: Fields::Unnamed(vec!["T".to_string()]) },
            Variant { name: "Two".to_string(), fields: Fields::Unnamed(vec!["u8".to_string(), "u16".to_string()]) },
            Variant {
                name: "Record".to_string(),
                fields: Fields::Named(vec![
                    NamedField { attrs: vec![], name: "x".to_string(), ty: "usize".to_string() },
                    NamedField { attrs: vec![], name: "y".to_string(), ty: "usize".to_string() },
                ]),
            },
        ]),
    }
}

fn value(variant: &str, fields: Vec<Val>) -> EnumValue<Val> {
    EnumValue { variant: variant.to_string(), fields }
}

#[test]
fn smoke_is_and_as() {
    let d = msg();
    let m = value("Unit", vec![]);
    assert_eq!(eval_is(&d, "is_unit", &m), Some(true));
    assert_eq!(eval_as(&d, "as_unit", &m), Some(Some(Borrowed::Unit)));

    let s = value("One", vec![Val::Text("hello".to_string())]);
    assert_eq!(eval_is(&d, "is_one", &s), Some(true));
    let r = eval_as(&d, "as_one", &s).unwrap().unwrap();
    assert_eq!(r, Borrowed::One(&Val::Text("hello".to_string())));

    let p = value("Two", vec![Val::U8(3), Val::U16(5)]);
    match eval_as(&d, "as_two", &p).unwrap().unwrap() {
        Borrowed::Tuple(pair) => assert_eq!((pair[0], pair[1]), (&Val::U8(3), &Val::U16(5))),
        other => panic!("unexpected {other:?}"),
    }

    let rec = value("Record", vec![Val::Usize(10), Val::Usize(20)]);
    let got = eval_as(&d, "as_record", &rec).unwrap().unwrap();
    assert_eq!(
        got,
        Borrowed::Named(vec![
            NamedRef { name: "x".to_string(), value: &Val::Usize(10) },
            NamedRef { name: "y".to_string(), value: &Val::Usize(20) },
        ])
    );

    let code = derive_enum_as_variant(&d);
    syn::parse_file(&code).unwrap();
    // The helper's marker uses T, which none of its fields does.
    assert!(code.contains("pub __marker: ::core::marker::PhantomData<&'a Msg<T>>"));
    syn::parse_file(&derive_enum_is_variant(&d)).unwrap();
}
