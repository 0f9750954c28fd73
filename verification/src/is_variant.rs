use crate::generics::{impl_header, impl_header_text};
use crate::model::{enum_data, variants_of, Data, DeriveInput, Fields, Variant};
use crate::naming::{is_method_name_from_snake, is_name_from_snake, snake_names, variant_snake_names};
use crate::text::{concat_strings, concat_text, join, join_strings, views};
use vstd::prelude::*;

verus! {

/// The error emitted when `EnumIsVariant` is derived on a non-enum.
pub open spec fn is_variant_not_enum_text() -> Seq<char> {
    "compile_error!(\"EnumIsVariant can only be derived for enums.\");"@
}

/// The part of a pattern that follows `Enum::Variant` and matches any value
/// of that variant: nothing, `(_, _)`, or `{ .. }`.
pub open spec fn wildcard_fields_text(fields: Fields) -> Seq<char> {
    match fields {
        Fields::Unit => Seq::empty(),
        Fields::Unnamed(tys) => "("@ + join(Seq::new(tys@.len(), |i: int| "_"@), ", "@) + ")"@,
        Fields::Named(_) => " { .. }"@,
    }
}

/// The `is_*` method generated for a variant of the enum `enum_name` whose
/// snake-case name is `snake`.
pub open spec fn is_method_text(enum_name: Seq<char>, v: Variant, snake: Seq<char>) -> Seq<char> {
    "#[inline] pub fn "@ + is_name_from_snake(snake) + "(&self) -> bool { matches!(self, "@
        + enum_name + "::"@ + v.name@ + wildcard_fields_text(v.fields) + ") }"@
}

/// The output of `EnumIsVariant` when the variants' snake-case names are
/// `snakes`: an inherent `impl` block with one `is_*` method per variant, in
/// order, or the error for an input that is not an enum.
pub open spec fn render_is_variant_text(input: DeriveInput, snakes: Seq<Seq<char>>) -> Seq<char> {
    match input.data {
        Data::Enum(vs) => impl_header_text(input.ident@, input.generics) + concat_text(
            Seq::new(vs@.len(), |i: int| is_method_text(input.ident@, vs@[i], snakes[i])),
        ) + "}"@,
        _ => is_variant_not_enum_text(),
    }
}

/// The whole output of the `EnumIsVariant` derive for `input`.
pub open spec fn is_variant_output(input: DeriveInput) -> Seq<char> {
    render_is_variant_text(input, snake_names(variants_of(input)))
}

fn wildcard_fields(fields: &Fields) -> (res: String)
    ensures
        res@ == wildcard_fields_text(*fields),
{
    match fields {
        Fields::Unit => String::new(),
        Fields::Unnamed(tys) => {
            let n = tys.len();
            let mut blanks: Vec<String> = Vec::new();
            let mut i: usize = 0;
            while i < n
                invariant
                    i <= n,
                    n == tys@.len(),
                    blanks@.len() == i,
                    forall|j: int| 0 <= j < i ==> #[trigger] blanks@[j]@ == "_"@,
                decreases n - i,
            {
                blanks.push(String::from_str("_"));
                i = i + 1;
            }
            assert(views(blanks@) =~= Seq::new(tys@.len(), |i: int| "_"@));
            let inner = join_strings(&blanks, ", ");
            let mut out = String::from_str("(");
            out.append(inner.as_str());
            out.append(")");
            out
        },
        Fields::Named(_) => String::from_str(" { .. }"),
    }
}

fn is_method(enum_name: &String, v: &Variant, snake: &String) -> (res: String)
    ensures
        res@ == is_method_text(enum_name@, *v, snake@),
{
    let name = is_method_name_from_snake(snake.as_str());
    let pat = wildcard_fields(&v.fields);
    let mut out = String::from_str("#[inline] pub fn ");
    out.append(name.as_str());
    out.append("(&self) -> bool { matches!(self, ");
    out.append(enum_name.as_str());
    out.append("::");
    out.append(v.name.as_str());
    out.append(pat.as_str());
    out.append(") }");
    out
}

/// Renders the output of `EnumIsVariant` for `input`, given the snake-case
/// name of each variant in `snakes`.
pub fn render_enum_is_variant(input: &DeriveInput, snakes: &Vec<String>) -> (res: String)
    requires
        snakes@.len() == variants_of(*input).len(),
    ensures
        res@ == render_is_variant_text(*input, views(snakes@)),
{
    match enum_data(input) {
        Some(vs) => {
            let n = vs.len();
            let mut methods: Vec<String> = Vec::new();
            let mut i: usize = 0;
            while i < n
                invariant
                    i <= n,
                    n == vs@.len(),
                    n == snakes@.len(),
                    methods@.len() == i,
                    forall|j: int|
                        0 <= j < i ==> #[trigger] methods@[j]@ == is_method_text(
                            input.ident@,
                            vs@[j],
                            snakes@[j]@,
                        ),
                decreases n - i,
            {
                let m = is_method(&input.ident, &vs[i], &snakes[i]);
                methods.push(m);
                i = i + 1;
            }
            assert(views(methods@) =~= Seq::new(
                vs@.len(),
                |i: int| is_method_text(input.ident@, vs@[i], views(snakes@)[i]),
            ));
            let body = concat_strings(&methods);
            let mut out = impl_header(&input.ident, &input.generics);
            out.append(body.as_str());
            out.append("}");
            out
        },
        None => String::from_str("compile_error!(\"EnumIsVariant can only be derived for enums.\");"),
    }
}

/// Expands `#[derive(EnumIsVariant)]`: returns the source text of an
/// inherent `impl` block with a method `is_<variant>(&self) -> bool` for
/// every variant, or a `compile_error!` when the input is not an enum.
pub fn derive_enum_is_variant(input: &DeriveInput) -> (res: String)
    ensures
        res@ == is_variant_output(*input),
{
    let snakes = match enum_data(input) {
        Some(vs) => variant_snake_names(vs),
        None => Vec::new(),
    };
    assert(views(snakes@).len() == snakes@.len());
    render_enum_is_variant(input, &snakes)
}

} // verus!
