use crate::as_variant::{
    as_variant_output, has_marker, helper_struct_text, marker_field_text, named_accessor_text,
    render_as_variant_text, variant_accessors_text, variant_helper_text,
};
use crate::derives::{filtered_derive_texts, has_malformed_derive};
use crate::generics::{
    helper_args_text, helper_generics_text, helper_lifetime_text, impl_header_text,
    type_generics_text, where_clause_text,
};
use crate::is_variant::{is_method_text, is_variant_output, render_is_variant_text};
use crate::model::variants_of;
use crate::naming::snake_names;
use crate::model::{Attribute, Data, DeriveInput, Fields, GenericParam, Generics, NamedField, Variant};
use quote::ToTokens;
use syn::parse::Parser;
use vstd::prelude::*;

verus! {

/// The parts of a derive input as `syn` reads it, each kept as token text:
/// the meta of each outer attribute, the visibility, the name, each generic
/// parameter and the `where` clause (empty when there is none).
pub struct ItemSyntax {
    pub attrs: Vec<String>,
    pub vis: String,
    pub ident: String,
    pub params: Vec<String>,
    pub where_clause: String,
}

/// The body of the input: the token text of each variant of an enum.
pub enum BodySyntax {
    Enum(Vec<String>),
    Struct,
    Union,
}

/// A generic parameter as `syn` reads it, apart from its attributes.
pub enum ParamSyntax {
    Lifetime { name: String, bounds: String },
    Type { name: String, bounds: String, default: Option<String> },
    Const { name: String, ty: String, default: Option<String> },
}

/// An attribute's meta as `syn` reads it: whether its path is `derive`, and
/// the tokens inside the parentheses when it is a list.
pub struct MetaSyntax {
    pub is_derive: bool,
    pub list: Option<String>,
}

/// A variant as `syn` reads it: its name, and its fields as the token text
/// of each positional field's type or of each named field.
pub struct VariantSyntax {
    pub ident: String,
    pub fields: FieldsSyntax,
}

/// The fields of a variant as token text.
pub enum FieldsSyntax {
    Unit,
    Unnamed(Vec<String>),
    Named(Vec<String>),
}

// Every reading below first switches proc-macro2, for the whole process, to
// its own lexer and printer (`proc_macro2::fallback::force`); nothing in this
// crate switches it back. The compiler's printer, which proc-macro2 would
// otherwise use inside a procedural macro, spaces tokens differently from one
// compiler to the next. With proc-macro2's own, what `syn` reads from a text
// and the token text it prints back depend on the text alone, for the
// versions of `syn` and proc-macro2 that Cargo.lock fixes.

/// What `syn` reads from the text of a derive input (`DeriveInput`),
/// apart from its body.
pub uninterp spec fn item_syntax(text: Seq<char>) -> Option<ItemSyntax>;

/// The body that `syn` reads from the text of a derive input.
pub uninterp spec fn body_syntax(text: Seq<char>) -> Option<BodySyntax>;

/// What `syn` reads from the text of an attribute's meta (`Meta`).
pub uninterp spec fn meta_syntax(text: Seq<char>) -> Option<MetaSyntax>;

/// What `syn` reads from the text of a generic parameter (`GenericParam`),
/// apart from its attributes.
pub uninterp spec fn generic_param_of(text: Seq<char>) -> Option<ParamSyntax>;

/// The outer attributes that `syn` reads on a generic parameter, as token text.
pub uninterp spec fn param_attrs_of(text: Seq<char>) -> Option<Vec<String>>;

/// What `syn` reads from the text of a variant (`Variant`).
pub uninterp spec fn variant_syntax(text: Seq<char>) -> Option<VariantSyntax>;

/// What `syn` reads from the text of a named field (`Field::parse_named`).
pub uninterp spec fn named_field_of(text: Seq<char>) -> Option<NamedField>;

/// Switches proc-macro2 to its own lexer and printer, then calls
/// `syn::parse_str::<syn::DeriveInput>` and prints each part back as tokens.
/// Trusted: the result is `item_syntax` of the text.
#[verifier::external_body]
fn split_item(text: &str) -> (res: Option<ItemSyntax>)
    ensures
        res == item_syntax(text@),
{
    proc_macro2::fallback::force();
    let i: syn::DeriveInput = syn::parse_str(text).ok()?;
    Some(ItemSyntax {
        attrs: i.attrs.iter().map(|a| a.meta.to_token_stream().to_string()).collect(),
        vis: i.vis.to_token_stream().to_string(),
        ident: i.ident.to_string(),
        params: i.generics.params.iter().map(|p| p.to_token_stream().to_string()).collect(),
        where_clause: i.generics.where_clause.to_token_stream().to_string(),
    })
}

/// Switches proc-macro2 to its own lexer and printer, then calls
/// `syn::parse_str::<syn::DeriveInput>` and prints each variant of an enum
/// back as tokens. Trusted: the result is `body_syntax` of the text.
#[verifier::external_body]
fn split_body(text: &str) -> (res: Option<BodySyntax>)
    ensures
        res == body_syntax(text@),
{
    proc_macro2::fallback::force();
    let i: syn::DeriveInput = syn::parse_str(text).ok()?;
    Some(match i.data {
        syn::Data::Enum(e) => BodySyntax::Enum(e.variants.iter().map(|v| v.to_token_stream().to_string()).collect()),
        syn::Data::Struct(_) => BodySyntax::Struct,
        syn::Data::Union(_) => BodySyntax::Union,
    })
}

/// Switches proc-macro2 to its own lexer and printer, then calls
/// `syn::parse_str::<syn::Meta>`, `Path::is_ident("derive")` and, for a
/// list, prints its tokens. Trusted: the result is `meta_syntax` of the text.
#[verifier::external_body]
fn split_meta(text: &str) -> (res: Option<MetaSyntax>)
    ensures
        res == meta_syntax(text@),
{
    proc_macro2::fallback::force();
    let m: syn::Meta = syn::parse_str(text).ok()?;
    let list = match &m {
        syn::Meta::List(l) => Some(l.tokens.to_string()),
        _ => None,
    };
    Some(MetaSyntax { is_derive: m.path().is_ident("derive"), list })
}

/// Switches proc-macro2 to its own lexer and printer, then calls
/// `syn::parse_str::<syn::GenericParam>` and prints its parts. Trusted: the
/// result is `generic_param_of` of the text.
#[verifier::external_body]
fn split_generic_param(text: &str) -> (res: Option<ParamSyntax>)
    ensures
        res == generic_param_of(text@),
{
    proc_macro2::fallback::force();
    let p: syn::GenericParam = syn::parse_str(text).ok()?;
    Some(match p {
        syn::GenericParam::Lifetime(l) => ParamSyntax::Lifetime { name: l.lifetime.to_string(), bounds: l.bounds.to_token_stream().to_string() },
        syn::GenericParam::Type(t) => ParamSyntax::Type {
            name: t.ident.to_string(),
            bounds: t.bounds.to_token_stream().to_string(),
            default: t.default.map(|d| d.to_token_stream().to_string()),
        },
        syn::GenericParam::Const(c) => ParamSyntax::Const {
            name: c.ident.to_string(),
            ty: c.ty.to_token_stream().to_string(),
            default: c.default.map(|d| d.to_token_stream().to_string()),
        },
    })
}

/// Switches proc-macro2 to its own lexer and printer, then calls
/// `syn::parse_str::<syn::GenericParam>` and prints each of the parameter's
/// outer attributes. Trusted: the result is `param_attrs_of` of the text.
#[verifier::external_body]
fn split_param_attrs(text: &str) -> (res: Option<Vec<String>>)
    ensures
        res == param_attrs_of(text@),
{
    proc_macro2::fallback::force();
    let attrs = match syn::parse_str::<syn::GenericParam>(text).ok()? {
        syn::GenericParam::Lifetime(l) => l.attrs,
        syn::GenericParam::Type(t) => t.attrs,
        syn::GenericParam::Const(c) => c.attrs,
    };
    Some(attrs.iter().map(|a| a.to_token_stream().to_string()).collect())
}

/// Switches proc-macro2 to its own lexer and printer, then calls
/// `syn::parse_str::<syn::Variant>` and prints its fields. Trusted: the
/// result is `variant_syntax` of the text.
#[verifier::external_body]
fn split_variant(text: &str) -> (res: Option<VariantSyntax>)
    ensures
        res == variant_syntax(text@),
{
    proc_macro2::fallback::force();
    let v: syn::Variant = syn::parse_str(text).ok()?;
    let fields = match v.fields {
        syn::Fields::Unit => FieldsSyntax::Unit,
        syn::Fields::Unnamed(f) => FieldsSyntax::Unnamed(f.unnamed.iter().map(|f| f.ty.to_token_stream().to_string()).collect()),
        syn::Fields::Named(f) => FieldsSyntax::Named(f.named.iter().map(|f| f.to_token_stream().to_string()).collect()),
    };
    Some(VariantSyntax { ident: v.ident.to_string(), fields })
}

/// Switches proc-macro2 to its own lexer and printer, then calls
/// `syn::Field::parse_named` on the text and prints the field's attributes,
/// name and type. Trusted: the result is `named_field_of` of the text.
#[verifier::external_body]
fn split_named_field(text: &str) -> (res: Option<NamedField>)
    ensures
        res == named_field_of(text@),
{
    proc_macro2::fallback::force();
    let f = syn::Field::parse_named.parse_str(text).ok()?;
    Some(NamedField {
        attrs: f.attrs.iter().map(|a| a.to_token_stream().to_string()).collect(),
        name: f.ident.as_ref().map(|i| i.to_string()).unwrap_or_default(),
        ty: f.ty.to_token_stream().to_string(),
    })
}

/// The generic parameter that a reading and its attributes describe.
pub open spec fn param_of(ps: ParamSyntax, attrs: Vec<String>) -> GenericParam {
    match ps {
        ParamSyntax::Lifetime { name, bounds } => GenericParam::Lifetime { attrs, name, bounds },
        ParamSyntax::Type { name, bounds, default } => GenericParam::Type { attrs, name, bounds, default },
        ParamSyntax::Const { name, ty, default } => GenericParam::Const { attrs, name, ty, default },
    }
}

/// The generic parameter that `syn` reads from `text`, attributes included.
pub open spec fn param_read(text: Seq<char>) -> Option<GenericParam> {
    match (generic_param_of(text), param_attrs_of(text)) {
        (Some(ps), Some(attrs)) => Some(param_of(ps, attrs)),
        _ => None,
    }
}

fn read_param(text: &str) -> (res: Option<GenericParam>)
    ensures
        res == param_read(text@),
{
    let ps = match split_generic_param(text) {
        Some(ps) => ps,
        None => return None,
    };
    let attrs = match split_param_attrs(text) {
        Some(attrs) => attrs,
        None => return None,
    };
    Some(
        match ps {
            ParamSyntax::Lifetime { name, bounds } => GenericParam::Lifetime { attrs, name, bounds },
            ParamSyntax::Type { name, bounds, default } => GenericParam::Type { attrs, name, bounds, default },
            ParamSyntax::Const { name, ty, default } => GenericParam::Const { attrs, name, ty, default },
        },
    )
}

/// The attribute that a meta describes.
pub open spec fn attribute_of(m: MetaSyntax) -> Attribute {
    if m.is_derive {
        match m.list {
            Some(tokens) => Attribute::Derive(tokens),
            None => Attribute::DeriveNotList,
        }
    } else {
        Attribute::Other
    }
}

/// Whether the text of a variant, and of each of its named fields, reads.
pub open spec fn variant_parses(text: Seq<char>) -> bool {
    match variant_syntax(text) {
        Some(vs) => match vs.fields {
            FieldsSyntax::Named(fts) => forall|j: int|
                0 <= j < fts@.len() ==> #[trigger] named_field_of(fts@[j]@) is Some,
            _ => true,
        },
        None => false,
    }
}

/// Whether every part of a read derive input reads in turn.
pub open spec fn parts_parse(it: ItemSyntax, body: BodySyntax) -> bool {
    &&& forall|i: int| 0 <= i < it.attrs@.len() ==> #[trigger] meta_syntax(it.attrs@[i]@) is Some
    &&& forall|i: int|
        0 <= i < it.params@.len() ==> #[trigger] param_read(it.params@[i]@) is Some
    &&& match body {
        BodySyntax::Enum(vts) => forall|i: int|
            0 <= i < vts@.len() ==> #[trigger] variant_parses(vts@[i]@),
        _ => true,
    }
}

/// Whether the text reads as a derive input, down to its variants' fields.
pub open spec fn input_parses(text: Seq<char>) -> bool {
    match (item_syntax(text), body_syntax(text)) {
        (Some(it), Some(body)) => parts_parse(it, body),
        _ => false,
    }
}

/// `v` is the variant that `syn` reads from `text`.
pub open spec fn variant_describes(v: Variant, text: Seq<char>) -> bool {
    match variant_syntax(text) {
        Some(vs) => v.name == vs.ident && match vs.fields {
            FieldsSyntax::Unit => v.fields is Unit,
            FieldsSyntax::Unnamed(tys) => v.fields == Fields::Unnamed(tys),
            FieldsSyntax::Named(fts) => v.fields matches Fields::Named(fs) && fs@.len() == fts@.len()
                && forall|j: int| 0 <= j < fts@.len() ==> #[trigger] named_field_of(fts@[j]@) == Some(fs@[j]),
        },
        None => false,
    }
}

/// The `where` clause as the library describes it: none when syn prints nothing.
pub open spec fn where_of(text: String) -> Option<String> {
    if text@.len() == 0 {
        None
    } else {
        Some(text)
    }
}

/// `d` is the description of the derive input that `syn` reads from `text`.
pub open spec fn describes(d: DeriveInput, text: Seq<char>) -> bool {
    match (item_syntax(text), body_syntax(text)) {
        (Some(it), Some(body)) => {
            &&& d.ident == it.ident
            &&& d.vis == it.vis
            &&& d.attrs@.len() == it.attrs@.len()
            &&& forall|i: int|
                0 <= i < it.attrs@.len() ==> meta_syntax(#[trigger] it.attrs@[i]@) is Some && d.attrs@[i]
                    == attribute_of(meta_syntax(it.attrs@[i]@)->0)
            &&& d.generics.params@.len() == it.params@.len()
            &&& forall|i: int|
                0 <= i < it.params@.len() ==> param_read(#[trigger] it.params@[i]@) == Some(
                    d.generics.params@[i],
                )
            &&& d.generics.where_clause == where_of(it.where_clause)
            &&& match body {
                BodySyntax::Enum(vts) => d.data matches Data::Enum(vs) && vs@.len() == vts@.len()
                    && forall|i: int| 0 <= i < vts@.len() ==> variant_describes(#[trigger] vs@[i], vts@[i]@),
                BodySyntax::Struct => d.data is Struct,
                BodySyntax::Union => d.data is Union,
            }
        },
        _ => false,
    }
}

/// The description of the derive input written as `text`, when it reads.
pub open spec fn parsed_input(text: Seq<char>) -> Option<DeriveInput> {
    if input_parses(text) && exists|d: DeriveInput| describes(d, text) {
        Some(choose|d: DeriveInput| describes(d, text))
    } else {
        None
    }
}

fn attribute_from(m: MetaSyntax) -> (res: Attribute)
    ensures
        res == attribute_of(m),
{
    if m.is_derive {
        match m.list {
            Some(tokens) => Attribute::Derive(tokens),
            None => Attribute::DeriveNotList,
        }
    } else {
        Attribute::Other
    }
}

fn read_named_fields(fts: &Vec<String>) -> (res: Option<Vec<NamedField>>)
    ensures
        res is Some <==> forall|j: int| 0 <= j < fts@.len() ==> #[trigger] named_field_of(fts@[j]@) is Some,
        res matches Some(fs) ==> fs@.len() == fts@.len() && forall|j: int|
            0 <= j < fts@.len() ==> #[trigger] named_field_of(fts@[j]@) == Some(fs@[j]),
{
    let n = fts.len();
    let mut out: Vec<NamedField> = Vec::new();
    let mut i: usize = 0;
    while i < n
        invariant
            i <= n,
            n == fts@.len(),
            out@.len() == i,
            forall|j: int| 0 <= j < i ==> #[trigger] named_field_of(fts@[j]@) == Some(out@[j]),
        decreases n - i,
    {
        match split_named_field(fts[i].as_str()) {
            Some(f) => out.push(f),
            None => return None,
        }
        i = i + 1;
    }
    Some(out)
}

fn read_variant(text: &String) -> (res: Option<Variant>)
    ensures
        res is Some <==> variant_parses(text@),
        res matches Some(v) ==> variant_describes(v, text@),
{
    let vs = match split_variant(text.as_str()) {
        Some(vs) => vs,
        None => return None,
    };
    let VariantSyntax { ident, fields } = vs;
    let fields = match fields {
        FieldsSyntax::Unit => Fields::Unit,
        FieldsSyntax::Unnamed(tys) => Fields::Unnamed(tys),
        FieldsSyntax::Named(fts) => match read_named_fields(&fts) {
            Some(fs) => Fields::Named(fs),
            None => return None,
        },
    };
    Some(Variant { name: ident, fields })
}

/// Reads the text of a derive input with `syn` into the library's
/// description of it: `None` when the text, or one of its parts, does not read.
#[verifier::loop_isolation(false)]
pub fn parse_derive_input(text: &str) -> (res: Option<DeriveInput>)
    ensures
        res is Some <==> input_parses(text@),
        res matches Some(d) ==> describes(d, text@),
{
    let it = match split_item(text) {
        Some(it) => it,
        None => return None,
    };
    let body = match split_body(text) {
        Some(body) => body,
        None => return None,
    };
    let ghost whole = it;
    let ghost whole_body = body;
    let ItemSyntax { attrs: attr_texts, vis, ident, params: param_texts, where_clause } = it;
    let mut attrs: Vec<Attribute> = Vec::new();
    let n = attr_texts.len();
    let mut i: usize = 0;
    while i < n
        invariant
            i <= n,
            n == attr_texts@.len(),
            attrs@.len() == i,
            forall|j: int|
                0 <= j < i ==> meta_syntax(#[trigger] attr_texts@[j]@) is Some && attrs@[j]
                    == attribute_of(meta_syntax(attr_texts@[j]@)->0),
        decreases n - i,
    {
        match split_meta(attr_texts[i].as_str()) {
            Some(m) => attrs.push(attribute_from(m)),
            None => {
                assert(meta_syntax(attr_texts@[i as int]@) is None);
                assert(!parts_parse(whole, whole_body));
                return None;
            },
        }
        i = i + 1;
    }
    let mut params: Vec<GenericParam> = Vec::new();
    let n = param_texts.len();
    let mut i: usize = 0;
    while i < n
        invariant
            i <= n,
            n == param_texts@.len(),
            params@.len() == i,
            forall|j: int| 0 <= j < i ==> param_read(#[trigger] param_texts@[j]@) == Some(params@[j]),
        decreases n - i,
    {
        match read_param(param_texts[i].as_str()) {
            Some(p) => params.push(p),
            None => {
                assert(param_read(param_texts@[i as int]@) is None);
                assert(!parts_parse(whole, whole_body));
                return None;
            },
        }
        i = i + 1;
    }
    let where_clause = if where_clause.as_str().unicode_len() == 0 {
        None
    } else {
        Some(where_clause)
    };
    let data = match body {
        BodySyntax::Enum(vts) => {
            let mut vs: Vec<Variant> = Vec::new();
            let n = vts.len();
            let mut i: usize = 0;
            while i < n
                invariant
                    i <= n,
                    n == vts@.len(),
                    vs@.len() == i,
                    forall|j: int| 0 <= j < i ==> variant_describes(#[trigger] vs@[j], vts@[j]@),
                    forall|j: int| 0 <= j < i ==> #[trigger] variant_parses(vts@[j]@),
                decreases n - i,
            {
                match read_variant(&vts[i]) {
                    Some(v) => vs.push(v),
                    None => {
                        assert(!variant_parses(vts@[i as int]@));
                        assert(!parts_parse(whole, whole_body));
                        return None;
                    },
                }
                i = i + 1;
            }
            Data::Enum(vs)
        },
        BodySyntax::Struct => Data::Struct,
        BodySyntax::Union => Data::Union,
    };
    Some(DeriveInput { attrs, vis, ident, generics: Generics { params, where_clause }, data })
}

/// Two descriptions of the same text give the same output: they agree on
/// everything the outputs read.
pub proof fn lemma_descriptions_agree(d1: DeriveInput, d2: DeriveInput, text: Seq<char>)
    requires
        describes(d1, text),
        describes(d2, text),
    ensures
        is_variant_output(d1) == is_variant_output(d2),
        as_variant_output(d1) == as_variant_output(d2),
{
    let it = item_syntax(text)->0;
    let body = body_syntax(text)->0;
    assert(d1.attrs@ =~= d2.attrs@) by {
        assert forall|i: int| 0 <= i < d1.attrs@.len() implies d1.attrs@[i] == d2.attrs@[i] by {
            assert(meta_syntax(it.attrs@[i]@) is Some);
        }
    }
    assert(d1.generics.params@ =~= d2.generics.params@) by {
        assert forall|i: int| 0 <= i < d1.generics.params@.len() implies d1.generics.params@[i]
            == d2.generics.params@[i] by {
            assert(param_read(it.params@[i]@) == Some(d1.generics.params@[i]));
        }
    }
    let g1 = d1.generics;
    let g2 = d2.generics;
    assert(impl_header_text(d1.ident@, g1) == impl_header_text(d2.ident@, g2));
    assert(helper_lifetime_text(g1) == helper_lifetime_text(g2));
    assert(helper_args_text(g1) == helper_args_text(g2));
    assert(type_generics_text(g1) == type_generics_text(g2));
    assert(where_clause_text(g1) == where_clause_text(g2));
    assert(has_marker(d1) == has_marker(d2));
    let lt = helper_lifetime_text(g1);
    assert(helper_generics_text(g1, lt) == helper_generics_text(g2, lt));
    assert(marker_field_text(d1, lt) == marker_field_text(d2, lt));
    match body {
        BodySyntax::Enum(vts) => {
            let vs1 = variants_of(d1);
            let vs2 = variants_of(d2);
            assert forall|i: int| 0 <= i < vs1.len() implies vs1[i].name == vs2[i].name && match (
                vs1[i].fields,
                vs2[i].fields,
            ) {
                (Fields::Unit, Fields::Unit) => true,
                (Fields::Unnamed(a), Fields::Unnamed(b)) => a == b,
                (Fields::Named(a), Fields::Named(b)) => a@ == b@,
                _ => false,
            } by {
                assert(variant_describes(vs1[i], vts@[i]@));
                assert(variant_describes(vs2[i], vts@[i]@));
                let vsyn = variant_syntax(vts@[i]@)->0;
                match vsyn.fields {
                    FieldsSyntax::Named(fts) => {
                        let a = vs1[i].fields->Named_0;
                        let b = vs2[i].fields->Named_0;
                        assert forall|j: int| 0 <= j < a@.len() implies a@[j] == b@[j] by {
                            assert(named_field_of(fts@[j]@) == Some(a@[j]));
                        }
                        assert(a@ =~= b@);
                    },
                    _ => {},
                }
            }
            let sn = snake_names(vs1);
            assert(sn =~= snake_names(vs2));
            let is1 = Seq::new(vs1.len(), |i: int| is_method_text(d1.ident@, vs1[i], sn[i]));
            let is2 = Seq::new(vs2.len(), |i: int| is_method_text(d2.ident@, vs2[i], sn[i]));
            assert(is1 =~= is2);
            assert(render_is_variant_text(d1, sn) == render_is_variant_text(d2, sn));
            let h1 = vs1.map_values(|v: Variant| variant_helper_text(d1, v));
            let h2 = vs2.map_values(|v: Variant| variant_helper_text(d2, v));
            assert forall|i: int| 0 <= i < h1.len() implies h1[i] == h2[i] by {
                match vs1[i].fields {
                    Fields::Named(a) => {
                        let b = vs2[i].fields->Named_0;
                        assert(helper_struct_text(d1, vs1[i].name@, a@) == helper_struct_text(
                            d2,
                            vs2[i].name@,
                            b@,
                        ));
                    },
                    _ => {},
                }
            }
            assert(h1 =~= h2);
            let m1 = Seq::new(vs1.len(), |i: int| variant_accessors_text(d1, vs1[i], sn[i]));
            let m2 = Seq::new(vs2.len(), |i: int| variant_accessors_text(d2, vs2[i], sn[i]));
            assert forall|i: int| 0 <= i < m1.len() implies m1[i] == m2[i] by {
                match vs1[i].fields {
                    Fields::Named(a) => {
                        let b = vs2[i].fields->Named_0;
                        assert(named_accessor_text(d1, vs1[i].name@, sn[i], a@) == named_accessor_text(
                            d2,
                            vs2[i].name@,
                            sn[i],
                            b@,
                        ));
                    },
                    _ => {},
                }
            }
            assert(m1 =~= m2);
            assert(has_malformed_derive(d1.attrs@) == has_malformed_derive(d2.attrs@));
            assert(render_as_variant_text(d1, sn) == render_as_variant_text(d2, sn));
        },
        _ => {},
    }
}

/// Expands `#[derive(EnumIsVariant)]` on the text of an item: reads it with
/// `syn`, then renders the `is_*` methods. `Err` when the text does not read
/// as a derive input.
pub fn expand_enum_is_variant(item: &str) -> (res: Result<String, ()>)
    ensures
        match parsed_input(item@) {
            Some(i) => res matches Ok(s) && s@ == is_variant_output(i),
            None => res is Err,
        },
{
    match parse_derive_input(item) {
        Some(d) => {
            let out = crate::is_variant::derive_enum_is_variant(&d);
            proof {
                let c = choose|c: DeriveInput| describes(c, item@);
                lemma_descriptions_agree(d, c, item@);
            }
            Ok(out)
        },
        None => Err(()),
    }
}

/// Expands `#[derive(EnumAsVariant)]` on the text of an item: reads it with
/// `syn`, then renders the helper structs and accessors. `Err` when the text
/// does not read as a derive input.
pub fn expand_enum_as_variant(item: &str) -> (res: Result<String, ()>)
    ensures
        match parsed_input(item@) {
            Some(i) => res matches Ok(s) && s@ == as_variant_output(i),
            None => res is Err,
        },
{
    match parse_derive_input(item) {
        Some(d) => {
            let out = crate::as_variant::derive_enum_as_variant(&d);
            proof {
                let c = choose|c: DeriveInput| describes(c, item@);
                lemma_descriptions_agree(d, c, item@);
            }
            Ok(out)
        },
        None => Err(()),
    }
}

} // verus!
