use enum_variant_accessors::{
    derive_enum_as_variant, eval_as, eval_is, Attribute, Borrowed, Data, DeriveInput, EnumValue,
    Fields, GenericParam, Generics, NamedField, NamedRef, Variant,
};

#[derive(Debug, PartialEq)]
enum Val {
    Text(String),
    U32(u32),
}

fn named(name: &str, fields: &[(&str, &str)]) -> Variant {
    Variant {
        name: name.to_string(),
        fields: Fields::Named(
            fields.iter().map(|(n, t)| NamedField { attrs: vec![], name: n.to_string(), ty: t.to_string() }).collect(),
        ),
    }
}

fn derive_attr(names: &[&str]) -> Attribute {
    Attribute::Derive(names.join(", "))
}

fn value(variant: &str, fields: Vec<Val>) -> EnumValue<Val> {
    EnumValue { variant: variant.to_string(), fields }
}

/// #[derive(EnumIsVariant, EnumAsVariant, Debug, Clone, Copy, PartialEq, Eq, Hash)]
/// pub(crate) enum Shape<'a> { Point, Label(&'a str), Rect { w: u32, h: u32 } }
fn shape() -> DeriveInput {
    DeriveInput {
        attrs: vec![derive_attr(&["EnumIsVariant", "EnumAsVariant", "Debug", "Clone", "Copy", "PartialEq", "Eq", "Hash"])],
        vis: "pub(crate)".to_string(),
        ident: "Shape".to_string(),
        generics: Generics {
            params: vec![GenericParam::Lifetime { attrs: vec![], name: "'a".to_string(), bounds: String::new() }],
            where_clause: None,
        },
        data: Data::Enum(vec![
            Variant { name: "Point".to_string(), fields: Fields::Unit },
            Variant { name: "Label".to_string(), fields: Fields::Unnamed(vec!["&'a str".to_string()]) },
            named("Rect", &[("w", "u32"), ("h", "u32")]),
        ]),
    }
}

#[test]
fn visibility_mirrors_enum() {
    let d = shape();
    let s = value("Rect", vec![Val::U32(2), Val::U32(9)]);
    assert_eq!(eval_is(&d, "is_rect", &s), Some(true));
    let r = eval_as(&d, "as_rect", &s).unwrap().unwrap();
    let _ = format!("{r:?}");
    let code = derive_enum_as_variant(&d);
    syn::parse_file(&code).unwrap();
    // The helper struct has the enum's visibility and its whitelisted derives.
    assert!(code.starts_with(
        "#[derive(Debug, Clone, Copy, PartialEq, Eq, Hash)]pub(crate) struct ShapeRect<'aa, 'a>"
    ));
}

/// #[derive(EnumIsVariant, EnumAsVariant, Debug, Clone, PartialEq, Eq)]
/// pub enum Event { Ping, Person { name: String, age: u32 } }
#[test]
fn public_helper_struct_is_public() {
    let d = DeriveInput {
        attrs: vec![derive_attr(&["EnumIsVariant", "EnumAsVariant", "Debug", "Clone", "PartialEq", "Eq"])],
        vis: "pub".to_string(),
        ident: "Event".to_string(),
        generics: Generics { params: vec![], where_clause: None },
        data: Data::Enum(vec![
            Variant { name: "Ping".to_string(), fields: Fields::Unit },
            named("Person", &[("name", "String"), ("age", "u32")]),
        ]),
    };
    let e = value("Person", vec![Val::Text("Ann".to_string()), Val::U32(34)]);
    let p = eval_as(&d, "as_person", &e).unwrap().unwrap();
    match p {
        Borrowed::Named(fields) => {
            assert_eq!(fields[0], NamedRef { name: "name".to_string(), value: &Val::Text("Ann".to_string()) });
            assert_eq!(*fields[1].value, Val::U32(34));
        },
        other => panic!("unexpected {other:?}"),
    }
    let code = derive_enum_as_variant(&d);
    syn::parse_file(&code).unwrap();
    assert!(code.contains("pub struct EventPerson<'a>  { pub name: &'a String, pub age: &'a u32, "));
}
