use enum_variant_accessors::{
    eval_as, eval_is, expand_enum_as_variant, expand_enum_is_variant, parse_derive_input, Attribute,
    Borrowed, Data, EnumValue, Fields, GenericParam,
};

const WEIRD: &str = "#[derive(EnumIsVariant, EnumAsVariant, Debug, Clone, Copy, PartialEq, Eq, PartialOrd, Ord, Hash)]
enum Weird {
    A,
    B(&'static str),
    C(i8, bool, usize),
    D {
        #[allow(unused)]
        flag: bool,
        value: u64,
    },
}";

const BAG: &str = "#[derive(EnumIsVariant, EnumAsVariant, Debug, Clone)]
enum Bag<'a, T, const N: usize>
where
    T: 'a + core::fmt::Debug,
{
    Empty,
    One(&'a T),
    Many(&'a [T; N]),
    Named { item: &'a T, count: usize },
}";

#[test]
fn reads_an_enum_with_syn() {
    let d = parse_derive_input(WEIRD).expect("the item reads");
    assert_eq!(d.ident, "Weird");
    assert_eq!(d.vis, "");
    assert_eq!(d.attrs.len(), 1);
    match &d.attrs[0] {
        Attribute::Derive(list) => assert!(list.contains("EnumIsVariant") && list.contains("Hash")),
        other => panic!("unexpected {other:?}"),
    }
    let vs = match &d.data {
        Data::Enum(vs) => vs,
        _ => panic!("an enum"),
    };
    let names: Vec<&str> = vs.iter().map(|v| v.name.as_str()).collect();
    assert_eq!(names, vec!["A", "B", "C", "D"]);
    assert_eq!(vs[0].fields, Fields::Unit);
    match &vs[2].fields {
        Fields::Unnamed(tys) => assert_eq!(tys, &vec!["i8".to_string(), "bool".to_string(), "usize".to_string()]),
        other => panic!("unexpected {other:?}"),
    }
    match &vs[3].fields {
        Fields::Named(fs) => {
            assert_eq!(fs.len(), 2);
            assert_eq!(fs[0].name, "flag");
            assert_eq!(fs[0].ty, "bool");
            assert_eq!(fs[0].attrs.len(), 1);
            assert!(fs[0].attrs[0].contains("allow"));
            assert_eq!(fs[1].name, "value");
            assert!(fs[1].attrs.is_empty());
        },
        other => panic!("unexpected {other:?}"),
    }
    // The read description behaves as the generated methods do.
    let v = EnumValue { variant: "C".to_string(), fields: vec![1u8, 2, 3] };
    assert_eq!(eval_is(&d, "is_c", &v), Some(true));
    assert_eq!(eval_as(&d, "as_c", &v), Some(Some(Borrowed::Tuple(vec![&1u8, &2, &3]))));
}

#[test]
fn reads_generics_and_where_clause() {
    let d = parse_derive_input(BAG).expect("the item reads");
    assert_eq!(d.generics.params.len(), 3);
    assert!(matches!(&d.generics.params[0], GenericParam::Lifetime { name, bounds, .. } if name == "'a" && bounds.is_empty()));
    assert!(matches!(&d.generics.params[1], GenericParam::Type { name, default: None, .. } if name == "T"));
    assert!(matches!(&d.generics.params[2], GenericParam::Const { name, .. } if name == "N"));
    assert!(d.generics.where_clause.as_ref().unwrap().starts_with("where"));
    let plain = parse_derive_input("enum P { A }").unwrap();
    assert_eq!(plain.generics.where_clause, None);
}

#[test]
fn expands_from_text() {
    for src in [WEIRD, BAG] {
        let is_code = expand_enum_is_variant(src).expect("an item");
        syn::parse_file(&is_code).unwrap();
        let as_code = expand_enum_as_variant(src).expect("an item");
        syn::parse_file(&as_code).unwrap();
        assert!(!as_code.contains("compile_error"));
    }
    let code = expand_enum_as_variant(BAG).unwrap();
    assert!(code.contains("#[derive(Debug, Clone)]"));
    assert!(code.contains("struct BagNamed<'aa, 'a, T, const N: usize>"));
    assert!(code.contains("pub fn as_named(&self)"));
}

#[test]
fn refuses_what_is_not_an_enum() {
    let person = "#[derive(EnumIsVariant, EnumAsVariant)] struct Person { name: String, age: i32 }";
    assert_eq!(
        expand_enum_is_variant(person),
        Ok("compile_error!(\"EnumIsVariant can only be derived for enums.\");".to_string())
    );
    assert_eq!(
        expand_enum_as_variant(person),
        Ok("compile_error!(\"EnumAsVariant can only be derived for enums.\");".to_string())
    );
    assert_eq!(expand_enum_is_variant("fn main() {}"), Err(()));
    assert_eq!(expand_enum_as_variant("not an item"), Err(()));
}

#[test]
fn malformed_derive_lists_are_errors() {
    let malformed = "compile_error!(\"expected the `derive(...)` attribute to contain a list of paths\");".to_string();
    assert_eq!(expand_enum_as_variant("#[derive = \"X\"] enum E { A }"), Ok(malformed.clone()));
    assert_eq!(expand_enum_as_variant("#[derive(= 3)] enum E { A }"), Ok(malformed));
    // The is-derive does not look at the attributes.
    assert!(expand_enum_is_variant("#[derive(= 3)] enum E { A }").unwrap().contains("is_a"));
}

#[test]
fn reads_attributes_of_generic_parameters() {
    let src = "enum W<#[allow(unused)] T, #[allow(dead_code)] const N: usize> { A(T), B { n: [u8; N] } }";
    let d = parse_derive_input(src).unwrap();
    match &d.generics.params[0] {
        GenericParam::Type { attrs, name, .. } => {
            assert_eq!(name, "T");
            assert_eq!(attrs.len(), 1);
            assert!(attrs[0].contains("allow") && attrs[0].contains("unused"));
        },
        other => panic!("unexpected {other:?}"),
    }
    match &d.generics.params[1] {
        GenericParam::Const { attrs, name, .. } => {
            assert_eq!(name, "N");
            assert!(attrs[0].contains("dead_code"));
        },
        other => panic!("unexpected {other:?}"),
    }
    let is_code = expand_enum_is_variant(src).unwrap();
    syn::parse_file(&is_code).unwrap();
    assert!(is_code.contains("unused"));
    let as_code = expand_enum_as_variant(src).unwrap();
    syn::parse_file(&as_code).unwrap();
    assert!(as_code.contains("dead_code"));
}

#[test]
fn reading_twice_gives_the_same_description() {
    assert_eq!(parse_derive_input(BAG), parse_derive_input(BAG));
    assert_eq!(expand_enum_as_variant(WEIRD), expand_enum_as_variant(WEIRD));
}
