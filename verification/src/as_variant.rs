use crate::derives::{filter_derive_attributes, filtered_derive_texts, has_malformed_derive};
use crate::generics::{
    generics_args_with_a, generics_with_leading_a, helper_args_text, helper_generics_text,
    helper_lifetime, helper_lifetime_text, impl_header, impl_header_text, type_generics,
    type_generics_text, where_clause_text, where_clause_tokens,
};
use crate::model::{enum_data, variants_of, Data, DeriveInput, Fields, NamedField, Variant};
use crate::naming::{
    as_method_name_from_snake, as_name_from_snake, helper_struct_ident, helper_struct_name,
    snake_names, variant_snake_names,
};
use crate::text::{
    attrs_string, attrs_text, concat_strings, concat_text, decimal, decimal_string, join, join_strings,
    views,
};
use vstd::prelude::*;

verus! {

/// The error emitted when `EnumAsVariant` is derived on a non-enum.
pub open spec fn as_variant_not_enum_text() -> Seq<char> {
    "compile_error!(\"EnumAsVariant can only be derived for enums.\");"@
}

/// The error emitted when a `derive` attribute of the input is not a list.
pub open spec fn malformed_derive_text() -> Seq<char> {
    "compile_error!(\"expected the `derive(...)` attribute to contain a list of paths\");"@
}

/// The receiver of an accessor.
pub open spec fn self_param_text(mutable: bool) -> Seq<char> {
    if mutable {
        "&mut self"@
    } else {
        "&self"@
    }
}

/// `::core::option::Option<ty>`.
pub open spec fn option_text(ty: Seq<char>) -> Seq<char> {
    "::core::option::Option<"@ + ty + ">"@
}

/// An accessor method: its name, receiver and return type, and one match
/// arm `pat => result` besides the arm that gives `None`.
pub open spec fn accessor_text(
    name: Seq<char>,
    mutable: bool,
    ret: Seq<char>,
    pat: Seq<char>,
    result: Seq<char>,
) -> Seq<char> {
    "#[inline] pub fn "@ + name + "("@ + self_param_text(mutable) + ") -> "@ + ret
        + " { match self { "@ + pat + " => "@ + result
        + ", _ => ::core::option::Option::None, } }"@
}

/// The accessor of a unit variant whose snake-case name is `snake`:
/// `Some(())` on that variant.
pub open spec fn unit_accessor_text(variant: Seq<char>, snake: Seq<char>, mutable: bool) -> Seq<char> {
    accessor_text(
        as_name_from_snake(snake, mutable),
        mutable,
        "::core::option::Option<()>"@,
        "Self::"@ + variant,
        "::core::option::Option::Some(())"@,
    )
}

/// A borrow of a field of type `ty`.
pub open spec fn ref_type_text(ty: Seq<char>, mutable: bool) -> Seq<char> {
    if mutable {
        "&'_ mut "@ + ty
    } else {
        "&'_ "@ + ty
    }
}

/// The name bound to the `i`-th positional field: `__v<i>`.
pub open spec fn binding_text(i: int) -> Seq<char> {
    "__v"@ + decimal(i as nat)
}

/// The binding of the `i`-th positional field in a pattern.
pub open spec fn bind_text(i: int, mutable: bool) -> Seq<char> {
    if mutable {
        "ref mut "@ + binding_text(i)
    } else {
        "ref "@ + binding_text(i)
    }
}

/// The return type of a tuple variant's accessor: one borrow when the
/// variant has one field, else a tuple of borrows (`()` for no field).
pub open spec fn tuple_return_text(tys: Seq<String>, mutable: bool) -> Seq<char> {
    if tys.len() == 1 {
        option_text(ref_type_text(tys[0]@, mutable))
    } else {
        option_text(
            "("@ + join(tys.map_values(|t: String| ref_type_text(t@, mutable)), ", "@) + ")"@,
        )
    }
}

/// The pattern that binds every field of a tuple variant by reference.
pub open spec fn tuple_pattern_text(variant: Seq<char>, n: nat, mutable: bool) -> Seq<char> {
    "Self::"@ + variant + "("@ + join(Seq::new(n, |i: int| bind_text(i, mutable)), ", "@) + ")"@
}

/// The value returned on a match by a tuple variant's accessor.
pub open spec fn tuple_result_text(n: nat) -> Seq<char> {
    if n == 1 {
        "::core::option::Option::Some("@ + binding_text(0) + ")"@
    } else {
        "::core::option::Option::Some(("@ + join(Seq::new(n, |i: int| binding_text(i)), ", "@)
            + "))"@
    }
}

/// The accessor of a tuple variant whose snake-case name is `snake`.
pub open spec fn tuple_accessor_text(
    variant: Seq<char>,
    snake: Seq<char>,
    tys: Seq<String>,
    mutable: bool,
) -> Seq<char> {
    accessor_text(
        as_name_from_snake(snake, mutable),
        mutable,
        tuple_return_text(tys, mutable),
        tuple_pattern_text(variant, tys.len(), mutable),
        tuple_result_text(tys.len()),
    )
}

/// The pattern that binds every named field of a variant by reference.
pub open spec fn named_pattern_text(variant: Seq<char>, fields: Seq<NamedField>) -> Seq<char> {
    "Self::"@ + variant + " { "@ + concat_text(
        fields.map_values(|f: NamedField| f.name@ + ": ref "@ + f.name@ + ", "@),
    ) + "}"@
}

/// Whether helper structs carry a marker field: only when the enum has
/// generic parameters, which the borrowed fields alone might not all use.
pub open spec fn has_marker(input: DeriveInput) -> bool {
    input.generics.params@.len() > 0
}

/// The initializer of the marker field, when there is one.
pub open spec fn marker_init_text(marked: bool) -> Seq<char> {
    if marked {
        "__marker: ::core::marker::PhantomData "@
    } else {
        Seq::empty()
    }
}

/// The value returned on a match by a struct-like variant's accessor.
pub open spec fn named_result_text(helper: Seq<char>, fields: Seq<NamedField>, marked: bool) -> Seq<
    char,
> {
    "::core::option::Option::Some("@ + helper + " { "@ + concat_text(
        fields.map_values(|f: NamedField| f.name@ + ", "@),
    ) + marker_init_text(marked) + "})"@
}

/// The accessor of a struct-like variant whose snake-case name is `snake`:
/// it returns the helper struct.
pub open spec fn named_accessor_text(
    input: DeriveInput,
    variant: Seq<char>,
    snake: Seq<char>,
    fields: Seq<NamedField>,
) -> Seq<char> {
    let helper = helper_struct_name(input.ident@, variant);
    accessor_text(
        as_name_from_snake(snake, false),
        false,
        option_text(helper + helper_args_text(input.generics)),
        named_pattern_text(variant, fields),
        named_result_text(helper, fields, has_marker(input)),
    )
}

/// A field of a helper struct: the field's attributes, then a public borrow
/// of the field's type.
pub open spec fn helper_field_text(f: NamedField, lifetime: Seq<char>) -> Seq<char> {
    attrs_text(f.attrs@) + "pub "@ + f.name@ + ": &"@
        + lifetime + " "@ + f.ty@ + ", "@
}

/// The helper struct of a struct-like variant: the whitelisted derives of
/// the enum, the enum's visibility, the borrow lifetime and the enum's
/// generics, one borrowed field per field of the variant, and, when the enum
/// has generic parameters, a marker field that uses every one of them.
pub open spec fn helper_struct_text(input: DeriveInput, variant: Seq<char>, fields: Seq<NamedField>) -> Seq<char> {
    let g = input.generics;
    let lifetime = helper_lifetime_text(g);
    concat_text(filtered_derive_texts(input.attrs@)) + input.vis@ + " struct "@
        + helper_struct_name(input.ident@, variant) + helper_generics_text(g, lifetime) + " "@
        + where_clause_text(g) + " { "@ + concat_text(
        fields.map_values(|f: NamedField| helper_field_text(f, lifetime)),
    ) + marker_field_text(input, lifetime) + "}"@
}

/// The marker field of a helper struct, when the enum has generic parameters.
pub open spec fn marker_field_text(input: DeriveInput, lifetime: Seq<char>) -> Seq<char> {
    if has_marker(input) {
        "#[doc(hidden)] pub __marker: ::core::marker::PhantomData<&"@ + lifetime + " "@
            + input.ident@ + type_generics_text(input.generics) + ">, "@
    } else {
        Seq::empty()
    }
}

/// The accessors generated for one variant whose snake-case name is
/// `snake`: `as_*` and `as_*_mut` for unit and tuple variants, `as_*` for
/// struct-like ones.
pub open spec fn variant_accessors_text(input: DeriveInput, v: Variant, snake: Seq<char>) -> Seq<char> {
    match v.fields {
        Fields::Unit => unit_accessor_text(v.name@, snake, false) + unit_accessor_text(
            v.name@,
            snake,
            true,
        ),
        Fields::Unnamed(tys) => tuple_accessor_text(v.name@, snake, tys@, false)
            + tuple_accessor_text(v.name@, snake, tys@, true),
        Fields::Named(fs) => named_accessor_text(input, v.name@, snake, fs@),
    }
}

/// The helper struct generated for one variant, if it is struct-like.
pub open spec fn variant_helper_text(input: DeriveInput, v: Variant) -> Seq<char> {
    match v.fields {
        Fields::Named(fs) => helper_struct_text(input, v.name@, fs@),
        _ => Seq::empty(),
    }
}

/// The output of `EnumAsVariant` when the variants' snake-case names are
/// `snakes`: the helper structs of the struct-like variants, then an
/// inherent `impl` block with the accessors of every variant, in order; or
/// the error for an input that is not an enum, or whose `derive` attributes
/// are not all lists.
pub open spec fn render_as_variant_text(input: DeriveInput, snakes: Seq<Seq<char>>) -> Seq<char> {
    match input.data {
        Data::Enum(vs) => if has_malformed_derive(input.attrs@) {
            malformed_derive_text()
        } else {
            concat_text(vs@.map_values(|v: Variant| variant_helper_text(input, v)))
                + impl_header_text(input.ident@, input.generics) + concat_text(
                Seq::new(vs@.len(), |i: int| variant_accessors_text(input, vs@[i], snakes[i])),
            ) + "}"@
        },
        _ => as_variant_not_enum_text(),
    }
}

/// The whole output of the `EnumAsVariant` derive for `input`.
pub open spec fn as_variant_output(input: DeriveInput) -> Seq<char> {
    render_as_variant_text(input, snake_names(variants_of(input)))
}

fn accessor(name: &str, mutable: bool, ret: &str, pat: &str, result: &str) -> (res: String)
    ensures
        res@ == accessor_text(name@, mutable, ret@, pat@, result@),
{
    let mut out = String::from_str("#[inline] pub fn ");
    out.append(name);
    out.append("(");
    if mutable {
        out.append("&mut self");
    } else {
        out.append("&self");
    }
    out.append(") -> ");
    out.append(ret);
    out.append(" { match self { ");
    out.append(pat);
    out.append(" => ");
    out.append(result);
    out.append(", _ => ::core::option::Option::None, } }");
    out
}

fn unit_accessor(variant: &String, snake: &String, mutable: bool) -> (res: String)
    ensures
        res@ == unit_accessor_text(variant@, snake@, mutable),
{
    let name = as_method_name_from_snake(snake.as_str(), mutable);
    let mut pat = String::from_str("Self::");
    pat.append(variant.as_str());
    accessor(
        name.as_str(),
        mutable,
        "::core::option::Option<()>",
        pat.as_str(),
        "::core::option::Option::Some(())",
    )
}

fn option_string(ty: &str) -> (res: String)
    ensures
        res@ == option_text(ty@),
{
    let mut out = String::from_str("::core::option::Option<");
    out.append(ty);
    out.append(">");
    out
}

fn ref_type(ty: &String, mutable: bool) -> (res: String)
    ensures
        res@ == ref_type_text(ty@, mutable),
{
    let mut out = if mutable {
        String::from_str("&'_ mut ")
    } else {
        String::from_str("&'_ ")
    };
    out.append(ty.as_str());
    out
}

fn binding(i: usize) -> (res: String)
    ensures
        res@ == binding_text(i as int),
{
    let digits = decimal_string(i);
    let mut out = String::from_str("__v");
    out.append(digits.as_str());
    out
}

fn bind(i: usize, mutable: bool) -> (res: String)
    ensures
        res@ == bind_text(i as int, mutable),
{
    let b = binding(i);
    let mut out = if mutable {
        String::from_str("ref mut ")
    } else {
        String::from_str("ref ")
    };
    out.append(b.as_str());
    out
}

fn tuple_return(tys: &Vec<String>, mutable: bool) -> (res: String)
    ensures
        res@ == tuple_return_text(tys@, mutable),
{
    let n = tys.len();
    if n == 1 {
        let r = ref_type(&tys[0], mutable);
        return option_string(r.as_str());
    }
    let mut refs: Vec<String> = Vec::new();
    let mut i: usize = 0;
    while i < n
        invariant
            i <= n,
            n == tys@.len(),
            refs@.len() == i,
            forall|j: int| 0 <= j < i ==> #[trigger] refs@[j]@ == ref_type_text(tys@[j]@, mutable),
        decreases n - i,
    {
        let r = ref_type(&tys[i], mutable);
        refs.push(r);
        i = i + 1;
    }
    assert(views(refs@) =~= tys@.map_values(|t: String| ref_type_text(t@, mutable)));
    let inner = join_strings(&refs, ", ");
    let mut tuple = String::from_str("(");
    tuple.append(inner.as_str());
    tuple.append(")");
    option_string(tuple.as_str())
}

fn tuple_pattern(variant: &String, n: usize, mutable: bool) -> (res: String)
    ensures
        res@ == tuple_pattern_text(variant@, n as nat, mutable),
{
    let mut binds: Vec<String> = Vec::new();
    let mut i: usize = 0;
    while i < n
        invariant
            i <= n,
            binds@.len() == i,
            forall|j: int| 0 <= j < i ==> #[trigger] binds@[j]@ == bind_text(j, mutable),
        decreases n - i,
    {
        let b = bind(i, mutable);
        binds.push(b);
        i = i + 1;
    }
    assert(views(binds@) =~= Seq::new(n as nat, |i: int| bind_text(i, mutable)));
    let inner = join_strings(&binds, ", ");
    let mut out = String::from_str("Self::");
    out.append(variant.as_str());
    out.append("(");
    out.append(inner.as_str());
    out.append(")");
    out
}

fn tuple_result(n: usize) -> (res: String)
    ensures
        res@ == tuple_result_text(n as nat),
{
    if n == 1 {
        let b = binding(0);
        let mut out = String::from_str("::core::option::Option::Some(");
        out.append(b.as_str());
        out.append(")");
        return out;
    }
    let mut names: Vec<String> = Vec::new();
    let mut i: usize = 0;
    while i < n
        invariant
            i <= n,
            names@.len() == i,
            forall|j: int| 0 <= j < i ==> #[trigger] names@[j]@ == binding_text(j),
        decreases n - i,
    {
        let b = binding(i);
        names.push(b);
        i = i + 1;
    }
    assert(views(names@) =~= Seq::new(n as nat, |i: int| binding_text(i)));
    let inner = join_strings(&names, ", ");
    let mut out = String::from_str("::core::option::Option::Some((");
    out.append(inner.as_str());
    out.append("))");
    out
}

fn tuple_accessor(variant: &String, snake: &String, tys: &Vec<String>, mutable: bool) -> (res:
    String)
    ensures
        res@ == tuple_accessor_text(variant@, snake@, tys@, mutable),
{
    let name = as_method_name_from_snake(snake.as_str(), mutable);
    let ret = tuple_return(tys, mutable);
    let pat = tuple_pattern(variant, tys.len(), mutable);
    let result = tuple_result(tys.len());
    accessor(name.as_str(), mutable, ret.as_str(), pat.as_str(), result.as_str())
}

fn named_pattern(variant: &String, fields: &Vec<NamedField>) -> (res: String)
    ensures
        res@ == named_pattern_text(variant@, fields@),
{
    let n = fields.len();
    let mut parts: Vec<String> = Vec::new();
    let mut i: usize = 0;
    while i < n
        invariant
            i <= n,
            n == fields@.len(),
            parts@.len() == i,
            forall|j: int|
                0 <= j < i ==> #[trigger] parts@[j]@ == fields@[j].name@ + ": ref "@
                    + fields@[j].name@ + ", "@,
        decreases n - i,
    {
        let mut p = fields[i].name.clone();
        p.append(": ref ");
        p.append(fields[i].name.as_str());
        p.append(", ");
        parts.push(p);
        i = i + 1;
    }
    assert(views(parts@) =~= fields@.map_values(
        |f: NamedField| f.name@ + ": ref "@ + f.name@ + ", "@,
    ));
    let inner = concat_strings(&parts);
    let mut out = String::from_str("Self::");
    out.append(variant.as_str());
    out.append(" { ");
    out.append(inner.as_str());
    out.append("}");
    out
}

fn named_result(helper: &String, fields: &Vec<NamedField>, marked: bool) -> (res: String)
    ensures
        res@ == named_result_text(helper@, fields@, marked),
{
    let n = fields.len();
    let mut parts: Vec<String> = Vec::new();
    let mut i: usize = 0;
    while i < n
        invariant
            i <= n,
            n == fields@.len(),
            parts@.len() == i,
            forall|j: int| 0 <= j < i ==> #[trigger] parts@[j]@ == fields@[j].name@ + ", "@,
        decreases n - i,
    {
        let mut p = fields[i].name.clone();
        p.append(", ");
        parts.push(p);
        i = i + 1;
    }
    assert(views(parts@) =~= fields@.map_values(|f: NamedField| f.name@ + ", "@));
    let inner = concat_strings(&parts);
    let mut out = String::from_str("::core::option::Option::Some(");
    out.append(helper.as_str());
    out.append(" { ");
    out.append(inner.as_str());
    if marked {
        out.append("__marker: ::core::marker::PhantomData ");
    }
    out.append("})");
    out
}

fn named_accessor(
    input: &DeriveInput,
    variant: &String,
    snake: &String,
    fields: &Vec<NamedField>,
) -> (res: String)
    ensures
        res@ == named_accessor_text(*input, variant@, snake@, fields@),
{
    let name = as_method_name_from_snake(snake.as_str(), false);
    let helper = helper_struct_ident(input.ident.as_str(), variant.as_str());
    let args = generics_args_with_a(&input.generics);
    let mut ty = helper.clone();
    ty.append(args.as_str());
    let ret = option_string(ty.as_str());
    let pat = named_pattern(variant, fields);
    let marked = input.generics.params.len() > 0;
    let result = named_result(&helper, fields, marked);
    accessor(name.as_str(), false, ret.as_str(), pat.as_str(), result.as_str())
}

fn helper_field(f: &NamedField, lifetime: &String) -> (res: String)
    ensures
        res@ == helper_field_text(*f, lifetime@),
{
    let mut out = attrs_string(&f.attrs);
    out.append("pub ");
    out.append(f.name.as_str());
    out.append(": &");
    out.append(lifetime.as_str());
    out.append(" ");
    out.append(f.ty.as_str());
    out.append(", ");
    out
}

fn helper_struct(
    input: &DeriveInput,
    derives: &String,
    lifetime: &String,
    variant: &String,
    fields: &Vec<NamedField>,
) -> (res: String)
    requires
        derives@ == concat_text(filtered_derive_texts(input.attrs@)),
        lifetime@ == helper_lifetime_text(input.generics),
    ensures
        res@ == helper_struct_text(*input, variant@, fields@),
{
    let n = fields.len();
    let mut parts: Vec<String> = Vec::new();
    let mut i: usize = 0;
    while i < n
        invariant
            i <= n,
            n == fields@.len(),
            parts@.len() == i,
            forall|j: int| 0 <= j < i ==> #[trigger] parts@[j]@ == helper_field_text(fields@[j], lifetime@),
        decreases n - i,
    {
        let p = helper_field(&fields[i], lifetime);
        parts.push(p);
        i = i + 1;
    }
    assert(views(parts@) =~= fields@.map_values(|f: NamedField| helper_field_text(f, lifetime@)));
    let body = concat_strings(&parts);
    let helper = helper_struct_ident(input.ident.as_str(), variant.as_str());
    let generics = generics_with_leading_a(&input.generics, lifetime.as_str());
    let wc = where_clause_tokens(&input.generics);
    let tg = type_generics(&input.generics);
    let mut out = derives.clone();
    out.append(input.vis.as_str());
    out.append(" struct ");
    out.append(helper.as_str());
    out.append(generics.as_str());
    out.append(" ");
    out.append(wc.as_str());
    out.append(" { ");
    out.append(body.as_str());
    let marker = if input.generics.params.len() > 0 {
        let mut m = String::from_str("#[doc(hidden)] pub __marker: ::core::marker::PhantomData<&");
        m.append(lifetime.as_str());
        m.append(" ");
        m.append(input.ident.as_str());
        m.append(tg.as_str());
        m.append(">, ");
        m
    } else {
        String::new()
    };
    out.append(marker.as_str());
    out.append("}");
    out
}

fn variant_accessors(input: &DeriveInput, v: &Variant, snake: &String) -> (res: String)
    ensures
        res@ == variant_accessors_text(*input, *v, snake@),
{
    match &v.fields {
        Fields::Unit => {
            let mut out = unit_accessor(&v.name, snake, false);
            let m = unit_accessor(&v.name, snake, true);
            out.append(m.as_str());
            out
        },
        Fields::Unnamed(tys) => {
            let mut out = tuple_accessor(&v.name, snake, tys, false);
            let m = tuple_accessor(&v.name, snake, tys, true);
            out.append(m.as_str());
            out
        },
        Fields::Named(fs) => named_accessor(input, &v.name, snake, fs),
    }
}

fn variant_helper(input: &DeriveInput, derives: &String, lifetime: &String, v: &Variant) -> (res: String)
    requires
        derives@ == concat_text(filtered_derive_texts(input.attrs@)),
        lifetime@ == helper_lifetime_text(input.generics),
    ensures
        res@ == variant_helper_text(*input, *v),
{
    match &v.fields {
        Fields::Named(fs) => helper_struct(input, derives, lifetime, &v.name, fs),
        _ => String::new(),
    }
}

/// Renders the output of `EnumAsVariant` for `input`, given the snake-case
/// name of each variant in `snakes`.
pub fn render_enum_as_variant(input: &DeriveInput, snakes: &Vec<String>) -> (res: String)
    requires
        snakes@.len() == variants_of(*input).len(),
    ensures
        res@ == render_as_variant_text(*input, views(snakes@)),
{
    let vs = match enum_data(input) {
        Some(vs) => vs,
        None => {
            return String::from_str(
                "compile_error!(\"EnumAsVariant can only be derived for enums.\");",
            );
        },
    };
    let filtered = match filter_derive_attributes(&input.attrs) {
        Ok(f) => f,
        Err(()) => {
            return String::from_str(
                "compile_error!(\"expected the `derive(...)` attribute to contain a list of paths\");",
            );
        },
    };
    let derives = concat_strings(&filtered);
    let lifetime = helper_lifetime(&input.generics);
    let n = vs.len();
    let mut helpers: Vec<String> = Vec::new();
    let mut methods: Vec<String> = Vec::new();
    let mut i: usize = 0;
    while i < n
        invariant
            i <= n,
            n == vs@.len(),
            n == snakes@.len(),
            input.data == Data::Enum(*vs),
            derives@ == concat_text(filtered_derive_texts(input.attrs@)),
            lifetime@ == helper_lifetime_text(input.generics),
            helpers@.len() == i,
            methods@.len() == i,
            forall|j: int| 0 <= j < i ==> #[trigger] helpers@[j]@ == variant_helper_text(*input, vs@[j]),
            forall|j: int|
                0 <= j < i ==> #[trigger] methods@[j]@ == variant_accessors_text(
                    *input,
                    vs@[j],
                    snakes@[j]@,
                ),
        decreases n - i,
    {
        let h = variant_helper(input, &derives, &lifetime, &vs[i]);
        helpers.push(h);
        let m = variant_accessors(input, &vs[i], &snakes[i]);
        methods.push(m);
        i = i + 1;
    }
    assert(views(helpers@) =~= vs@.map_values(|v: Variant| variant_helper_text(*input, v)));
    assert(views(methods@) =~= Seq::new(
        vs@.len(),
        |i: int| variant_accessors_text(*input, vs@[i], views(snakes@)[i]),
    ));
    let mut out = concat_strings(&helpers);
    let header = impl_header(&input.ident, &input.generics);
    out.append(header.as_str());
    let body = concat_strings(&methods);
    out.append(body.as_str());
    out.append("}");
    out
}

/// Expands `#[derive(EnumAsVariant)]`: returns the source text of the helper
/// structs of the struct-like variants and of an inherent `impl` block with
/// the borrowing accessors of every variant; or a `compile_error!` when the
/// input is not an enum or one of its `derive` attributes is not a list.
pub fn derive_enum_as_variant(input: &DeriveInput) -> (res: String)
    ensures
        res@ == as_variant_output(*input),
{
    let snakes = match enum_data(input) {
        Some(vs) => variant_snake_names(vs),
        None => Vec::new(),
    };
    assert(views(snakes@).len() == snakes@.len());
    render_enum_as_variant(input, &snakes)
}

} // verus!
