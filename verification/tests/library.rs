use enum_variant_accessors::{
    allowed_derives, as_variant_method_name, decimal_string, derive_enum_as_variant,
    derive_enum_is_variant, eval_as, eval_as_mut, eval_is, filter_derive_attributes,
    generics_args_with_a, generics_with_leading_a, helper_lifetime, helper_struct_ident,
    impl_generics, is_allowed_derive, is_variant_method_name, join_strings, render_enum_as_variant,
    render_enum_is_variant, type_generics, variant_snake_names, where_clause_tokens, Attribute,
    Borrowed, Data, DeriveInput, EnumValue, Fields, GenericParam, Generics, NamedField, Variant,
};

fn s(x: &str) -> String {
    x.to_string()
}

fn no_generics() -> Generics {
    Generics { params: vec![], where_clause: None }
}

fn simple_enum(variants: Vec<Variant>) -> DeriveInput {
    DeriveInput { attrs: vec![], vis: String::new(), ident: s("Foo"), generics: no_generics(), data: Data::Enum(variants) }
}

fn unit(name: &str) -> Variant {
    Variant { name: s(name), fields: Fields::Unit }
}

fn tuple(name: &str, tys: &[&str]) -> Variant {
    Variant { name: s(name), fields: Fields::Unnamed(tys.iter().map(|t| s(t)).collect()) }
}

fn named(name: &str, fields: &[(&str, &str)]) -> Variant {
    Variant {
        name: s(name),
        fields: Fields::Named(fields.iter().map(|(n, t)| NamedField { attrs: vec![], name: s(n), ty: s(t) }).collect()),
    }
}

#[test]
fn snake_case_names_come_from_heck() {
    assert_eq!(is_variant_method_name("XMLHttpRequest"), "is_xml_http_request");
    assert_eq!(as_variant_method_name("FooBar", false), "as_foo_bar");
    assert_eq!(as_variant_method_name("FooBar", true), "as_foo_bar_mut");
    assert_eq!(is_variant_method_name("A2"), "is_a2");
    let names = variant_snake_names(&vec![unit("HTTPServer"), unit("Ok")]);
    assert_eq!(names, vec![s("http_server"), s("ok")]);
}

#[test]
fn is_variant_output_is_exact() {
    let input = simple_enum(vec![unit("Ping"), tuple("Data", &["u8", "u16"]), named("Rec", &[("x", "u8")])]);
    assert_eq!(
        derive_enum_is_variant(&input),
        "impl Foo  {\
#[inline] pub fn is_ping(&self) -> bool { matches!(self, Foo::Ping) }\
#[inline] pub fn is_data(&self) -> bool { matches!(self, Foo::Data(_, _)) }\
#[inline] pub fn is_rec(&self) -> bool { matches!(self, Foo::Rec { .. }) }}"
    );
}

#[test]
fn as_variant_output_is_exact() {
    let input = simple_enum(vec![unit("Ping"), tuple("One", &["u8"]), named("Rec", &[("x", "u8")])]);
    assert_eq!(
        derive_enum_as_variant(&input),
        " struct FooRec<'a>  { pub x: &'a u8, }\
impl Foo  {\
#[inline] pub fn as_ping(&self) -> ::core::option::Option<()> { match self { Self::Ping => ::core::option::Option::Some(()), _ => ::core::option::Option::None, } }\
#[inline] pub fn as_ping_mut(&mut self) -> ::core::option::Option<()> { match self { Self::Ping => ::core::option::Option::Some(()), _ => ::core::option::Option::None, } }\
#[inline] pub fn as_one(&self) -> ::core::option::Option<&'_ u8> { match self { Self::One(ref __v0) => ::core::option::Option::Some(__v0), _ => ::core::option::Option::None, } }\
#[inline] pub fn as_one_mut(&mut self) -> ::core::option::Option<&'_ mut u8> { match self { Self::One(ref mut __v0) => ::core::option::Option::Some(__v0), _ => ::core::option::Option::None, } }\
#[inline] pub fn as_rec(&self) -> ::core::option::Option<FooRec<'_>> { match self { Self::Rec { x: ref x, } => ::core::option::Option::Some(FooRec { x, }), _ => ::core::option::Option::None, } }}"
    );
}

#[test]
fn snake_names_are_taken_as_given() {
    let input = simple_enum(vec![unit("Ping"), tuple("Pair", &["u8", "u8"])]);
    let snakes = vec![s("first"), s("second")];
    let is_code = render_enum_is_variant(&input, &snakes);
    assert!(is_code.contains("pub fn is_first(&self)"));
    assert!(is_code.contains("pub fn is_second(&self)"));
    let as_code = render_enum_as_variant(&input, &snakes);
    assert!(as_code.contains("pub fn as_first_mut(&mut self)"));
    assert!(as_code.contains("pub fn as_second(&self) -> ::core::option::Option<(&'_ u8, &'_ u8)>"));
}

#[test]
fn non_enums_are_refused() {
    for data in [Data::Struct, Data::Union] {
        let input = DeriveInput { attrs: vec![], vis: s("pub"), ident: s("Person"), generics: no_generics(), data };
        assert_eq!(
            derive_enum_is_variant(&input),
            "compile_error!(\"EnumIsVariant can only be derived for enums.\");"
        );
        assert_eq!(
            derive_enum_as_variant(&input),
            "compile_error!(\"EnumAsVariant can only be derived for enums.\");"
        );
        let v: EnumValue<u8> = EnumValue { variant: s("A"), fields: vec![] };
        assert_eq!(eval_is(&input, "is_a", &v), None);
    }
}

#[test]
fn malformed_derive_attribute_is_an_error() {
    let mut input = simple_enum(vec![unit("A")]);
    input.attrs = vec![Attribute::Other, Attribute::DeriveNotList];
    assert_eq!(
        derive_enum_as_variant(&input),
        "compile_error!(\"expected the `derive(...)` attribute to contain a list of paths\");"
    );
    // The is-derive does not look at the attributes.
    assert!(derive_enum_is_variant(&input).starts_with("impl Foo"));
    assert_eq!(filter_derive_attributes(&input.attrs), Err(()));
}

#[test]
fn derive_whitelist_filters() {
    assert_eq!(allowed_derives(), vec!["Debug", "Clone", "Copy", "PartialEq", "Eq", "PartialOrd", "Ord", "Hash"]);
    assert!(is_allowed_derive(&s("Hash")));
    assert!(!is_allowed_derive(&s("Default")));
    assert!(!is_allowed_derive(&s("serde::Serialize")));
    let attrs = vec![
        Attribute::Derive(s("Debug, serde::Serialize, Serialize, ::core::hash::Hash, Clone")),
        Attribute::Other,
        Attribute::Derive(s("EnumAsVariant, std::fmt::Debug")),
        Attribute::Derive(s("Hash,")),
    ];
    assert_eq!(filter_derive_attributes(&attrs), Ok(vec![s("#[derive(Debug, Clone)]"), s("#[derive(Hash)]")]));
    assert_eq!(filter_derive_attributes(&vec![]), Ok(vec![]));
    // A list that is not made of paths is an error, as is a `derive` that is not a list.
    assert_eq!(filter_derive_attributes(&vec![Attribute::Derive(s("= 3"))]), Err(()));
    assert_eq!(filter_derive_attributes(&vec![Attribute::DeriveNotList]), Err(()));
    // Filtering what was kept keeps it all.
    let once = filter_derive_attributes(&vec![Attribute::Derive(s("Ord, Default, Debug, Eq"))]).unwrap();
    assert_eq!(once, vec![s("#[derive(Ord, Debug, Eq)]")]);
    let again = filter_derive_attributes(&vec![Attribute::Derive(s("Ord, Debug, Eq"))]).unwrap();
    assert_eq!(again, once);
}

#[test]
fn generics_render() {
    let g = Generics {
        params: vec![
            GenericParam::Lifetime { attrs: vec![], name: s("'a"), bounds: String::new() },
            GenericParam::Lifetime { attrs: vec![], name: s("'b"), bounds: s("'a") },
            GenericParam::Type { attrs: vec![], name: s("T"), bounds: s("Clone"), default: Some(s("u8")) },
            GenericParam::Const { attrs: vec![], name: s("N"), ty: s("usize"), default: Some(s("3")) },
        ],
        where_clause: Some(s("where T: Copy")),
    };
    assert_eq!(impl_generics(&g), "<'a, 'b: 'a, T: Clone, const N: usize>");
    assert_eq!(type_generics(&g), "<'a, 'b, T, N>");
    assert_eq!(where_clause_tokens(&g), "where T: Copy");
    assert_eq!(helper_lifetime(&g), "'aab");
    assert_eq!(
        generics_with_leading_a(&g, "'aab"),
        "<'aab, 'a, 'b: 'a, T: Clone = u8, const N: usize = 3>"
    );
    assert_eq!(generics_args_with_a(&g), "<'_, 'a, 'b, T, N>");
    assert_eq!(impl_generics(&no_generics()), "");
    assert_eq!(type_generics(&no_generics()), "");
    assert_eq!(where_clause_tokens(&no_generics()), "");
    assert_eq!(helper_lifetime(&no_generics()), "'a");
    assert_eq!(generics_with_leading_a(&no_generics(), "'a"), "<'a>");
    assert_eq!(generics_args_with_a(&no_generics()), "<'_>");
    let only_b = Generics { params: vec![GenericParam::Lifetime { attrs: vec![], name: s("'b"), bounds: String::new() }], where_clause: None };
    assert_eq!(helper_lifetime(&only_b), "'a");
}

#[test]
fn text_helpers() {
    assert_eq!(decimal_string(0), "0");
    assert_eq!(decimal_string(7), "7");
    assert_eq!(decimal_string(10), "10");
    assert_eq!(decimal_string(1234), "1234");
    assert_eq!(join_strings(&vec![s("a"), s("b"), s("c")], ", "), "a, b, c");
    assert_eq!(join_strings(&vec![], ", "), "");
    assert_eq!(helper_struct_ident("Msg", "Record"), "MsgRecord");
}

#[test]
fn many_fields_get_numbered_bindings() {
    let tys = ["u8"; 11];
    let input = simple_enum(vec![tuple("Wide", &tys)]);
    let code = derive_enum_as_variant(&input);
    syn::parse_file(&code).unwrap();
    assert!(code.contains("ref __v9, ref __v10)"));
    assert!(code.contains("Some((__v0, __v1, __v2, __v3, __v4, __v5, __v6, __v7, __v8, __v9, __v10))"));
}

#[test]
fn exactly_one_is_method_holds() {
    let input = simple_enum(vec![unit("Ping"), tuple("Data", &["u8"]), named("Rec", &[("x", "u8")])]);
    let values = [
        EnumValue { variant: s("Ping"), fields: vec![] },
        EnumValue { variant: s("Data"), fields: vec![1u8] },
        EnumValue { variant: s("Rec"), fields: vec![2u8] },
    ];
    let methods = ["is_ping", "is_data", "is_rec"];
    for (i, v) in values.iter().enumerate() {
        for (j, m) in methods.iter().enumerate() {
            assert_eq!(eval_is(&input, m, v), Some(i == j));
        }
    }
    assert_eq!(eval_is(&input, "is_other", &values[0]), None);
}

#[test]
fn accessors_agree_with_is() {
    let input = simple_enum(vec![unit("Ping"), tuple("Data", &["u8"]), named("Rec", &[("x", "u8")])]);
    let mut values = vec![
        EnumValue { variant: s("Ping"), fields: vec![] },
        EnumValue { variant: s("Data"), fields: vec![1u8] },
        EnumValue { variant: s("Rec"), fields: vec![2u8] },
    ];
    let names = ["ping", "data", "rec"];
    for v in values.iter_mut() {
        for n in names {
            let is = eval_is(&input, &format!("is_{n}"), v).unwrap();
            assert_eq!(eval_as(&input, &format!("as_{n}"), v).unwrap().is_some(), is);
            let m = eval_as_mut(&input, &format!("as_{n}_mut"), v);
            if n == "rec" {
                // Struct-like variants have no mutable accessor.
                assert!(m.is_none());
            } else {
                assert_eq!(m.unwrap().is_some(), is);
            }
        }
    }
    assert_eq!(eval_as(&input, "as_rec", &values[2]).unwrap().unwrap(), Borrowed::Named(vec![
        enum_variant_accessors::NamedRef { name: s("x"), value: &2u8 },
    ]));
}

#[test]
fn mutable_accessor_writes_through() {
    let input = simple_enum(vec![unit("Ping"), tuple("Pair", &["u8", "u8"])]);
    let mut v = EnumValue { variant: s("Pair"), fields: vec![1u8, 2u8] };
    if let Some(Some(fields)) = eval_as_mut(&input, "as_pair_mut", &mut v) {
        fields[1] = 7;
    } else {
        panic!("the accessor should match");
    }
    assert_eq!(v, EnumValue { variant: s("Pair"), fields: vec![1u8, 7u8] });
    assert_eq!(eval_as_mut(&input, "as_ping_mut", &mut v), Some(None));
    assert_eq!(eval_as_mut(&input, "as_nothing_mut", &mut v), None);
}

#[test]
fn zero_field_tuple_variant_gives_unit() {
    let input = simple_enum(vec![tuple("Empty", &[])]);
    let v: EnumValue<u8> = EnumValue { variant: s("Empty"), fields: vec![] };
    assert_eq!(eval_as(&input, "as_empty", &v), Some(Some(Borrowed::Unit)));
    let code = derive_enum_as_variant(&input);
    assert!(code.contains("pub fn as_empty(&self) -> ::core::option::Option<()> { match self { Self::Empty() => ::core::option::Option::Some(()), "));
}

#[test]
fn refiltering_the_output_gives_it_back() {
    let attrs = vec![
        Attribute::Derive(s("Clone, Default, Hash")),
        Attribute::Other,
        Attribute::Derive(s("serde::Serialize")),
        Attribute::Derive(s("PartialEq, Eq, PartialOrd, Ord, Copy, Debug,")),
    ];
    let once = filter_derive_attributes(&attrs).unwrap();
    assert_eq!(once, vec![s("#[derive(Clone, Hash)]"), s("#[derive(PartialEq, Eq, PartialOrd, Ord, Copy, Debug)]")]);
    // Each rebuilt text stands for a `derive` list with the text between its parentheses.
    let again: Vec<Attribute> = once
        .iter()
        .map(|t| Attribute::Derive(t.strip_prefix("#[derive(").unwrap().strip_suffix(")]").unwrap().to_string()))
        .collect();
    assert_eq!(filter_derive_attributes(&again), Ok(once));
}

#[test]
fn generic_parameter_attributes_are_kept() {
    let g = Generics {
        params: vec![
            GenericParam::Lifetime { attrs: vec![s("#[doc = \"outer\"]")], name: s("'x"), bounds: String::new() },
            GenericParam::Type { attrs: vec![s("#[allow(unused)]"), s("#[doc = \"t\"]")], name: s("T"), bounds: s("Copy"), default: Some(s("u8")) },
            GenericParam::Const { attrs: vec![s("#[allow(dead_code)]")], name: s("N"), ty: s("usize"), default: None },
        ],
        where_clause: None,
    };
    assert_eq!(
        impl_generics(&g),
        "<#[doc = \"outer\"] 'x, #[allow(unused)] #[doc = \"t\"] T: Copy, #[allow(dead_code)] const N: usize>"
    );
    assert_eq!(type_generics(&g), "<'x, T, N>");
    assert_eq!(
        generics_with_leading_a(&g, "'a"),
        "<'a, #[doc = \"outer\"] 'x, #[allow(unused)] #[doc = \"t\"] T: Copy = u8, #[allow(dead_code)] const N: usize>"
    );
    assert_eq!(generics_args_with_a(&g), "<'_, 'x, T, N>");
}
