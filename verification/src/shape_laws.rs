//! Laws on the shape of the generated text: what each pattern binds, how
//! many fields it covers, what reading keeps, and what impl generics drop.
use crate::as_variant::{accessor_text, bind_text, binding_text, option_text, ref_type_text, tuple_accessor_text};
use crate::generics::{impl_generics_text, param_impl_text};
use crate::is_variant::wildcard_fields_text;
use crate::model::{variants_of, DeriveInput, Fields, GenericParam, Generics};
use crate::naming::as_name_from_snake;
use crate::parse::{body_syntax, describes, variant_describes, variant_syntax, BodySyntax, FieldsSyntax};
use crate::text::{attrs_text, decimal, digit_text, join};
use vstd::prelude::*;

verus! {

/// A decimal digit is one character, `'0' + d`.
proof fn lemma_digit(d: nat)
    requires
        d < 10,
    ensures
        digit_text(d).len() == 1,
        digit_text(d)[0] as int == 48 + d,
{
    reveal_strlit("0");
    reveal_strlit("1");
    reveal_strlit("2");
    reveal_strlit("3");
    reveal_strlit("4");
    reveal_strlit("5");
    reveal_strlit("6");
    reveal_strlit("7");
    reveal_strlit("8");
    reveal_strlit("9");
}

/// A decimal numeral has one digit below ten and more from ten on.
proof fn lemma_decimal_len(n: nat)
    ensures
        decimal(n).len() >= 1,
        n < 10 ==> decimal(n).len() == 1,
        n >= 10 ==> decimal(n).len() >= 2,
    decreases n,
{
    if n < 10 {
        lemma_digit(n);
    } else {
        lemma_decimal_len(n / 10);
        lemma_digit(n % 10);
    }
}

/// Different numbers have different numerals.
proof fn lemma_decimal_injective(a: nat, b: nat)
    requires
        decimal(a) == decimal(b),
    ensures
        a == b,
    decreases a,
{
    lemma_decimal_len(a);
    lemma_decimal_len(b);
    if a < 10 && b < 10 {
        lemma_digit(a);
        lemma_digit(b);
        assert(decimal(a)[0] == decimal(b)[0]);
    } else if a >= 10 && b >= 10 {
        lemma_digit(a % 10);
        lemma_digit(b % 10);
        let (ha, hb) = (decimal(a / 10), decimal(b / 10));
        assert(decimal(a) == ha + digit_text(a % 10));
        assert(decimal(b) == hb + digit_text(b % 10));
        assert(decimal(a).len() == decimal(b).len());
        assert(ha.len() == hb.len());
        assert(decimal(a)[ha.len() as int] == digit_text(a % 10)[0]);
        assert(decimal(b)[hb.len() as int] == digit_text(b % 10)[0]);
        assert(a % 10 == b % 10);
        assert(ha =~= decimal(a).subrange(0, ha.len() as int));
        assert(hb =~= decimal(b).subrange(0, hb.len() as int));
        lemma_decimal_injective(a / 10, b / 10);
        assert(a == 10 * (a / 10) + a % 10);
        assert(b == 10 * (b / 10) + b % 10);
    }
}

/// No two entries of `names` are equal.
pub open spec fn distinct(names: Seq<Seq<char>>) -> bool {
    forall|i: int, j: int| 0 <= i < j < names.len() ==> names[i] != names[j]
}

/// The binding keyword of a field in an accessor's pattern.
pub open spec fn ref_binding_prefix(mutable: bool) -> Seq<char> {
    if mutable {
        "ref mut "@
    } else {
        "ref "@
    }
}

/// A tuple variant's accessor whose pattern binds the variant's fields, in
/// order, to `names`, each by `ref` (or `ref mut`), and which returns the
/// borrows bound to `names` in the same order: one borrow for one field, a
/// tuple of them otherwise. Its return type borrows the field types in order.
pub open spec fn tuple_accessor_binding(
    variant: Seq<char>,
    snake: Seq<char>,
    tys: Seq<String>,
    mutable: bool,
    names: Seq<Seq<char>>,
) -> Seq<char> {
    accessor_text(
        as_name_from_snake(snake, mutable),
        mutable,
        option_text(
            if tys.len() == 1 {
                ref_type_text(tys[0]@, mutable)
            } else {
                "("@ + join(Seq::new(tys.len(), |i: int| ref_type_text(tys[i]@, mutable)), ", "@)
                    + ")"@
            },
        ),
        "Self::"@ + variant + "("@ + join(
            names.map_values(|x: Seq<char>| ref_binding_prefix(mutable) + x),
            ", "@,
        ) + ")"@,
        "::core::option::Option::Some("@ + (if names.len() == 1 {
            names[0]
        } else {
            "("@ + join(names, ", "@) + ")"@
        }) + ")"@,
    )
}

/// The accessors of a tuple variant, `as_*` and `as_*_mut`, bind each field
/// to a name of its own and hand back the `i`-th field as the `i`-th borrow:
/// their text is that of an accessor whose pattern and result use the same
/// distinct names in the same order, one per field.
pub proof fn law_tuple_accessors_return_fields_in_order(
    variant: Seq<char>,
    snake: Seq<char>,
    tys: Seq<String>,
    mutable: bool,
)
    ensures
        exists|names: Seq<Seq<char>>|
            names.len() == tys.len() && distinct(names) && #[trigger] tuple_accessor_binding(
                variant,
                snake,
                tys,
                mutable,
                names,
            ) == tuple_accessor_text(variant, snake, tys, mutable),
{
    let n = tys.len();
    let names = Seq::new(n, |i: int| binding_text(i));
    reveal_strlit("__v");
    assert forall|i: int, j: int| 0 <= i < j < names.len() implies names[i] != names[j] by {
        if names[i] == names[j] {
            assert(decimal(i as nat) =~= names[i].skip(3));
            assert(decimal(j as nat) =~= names[j].skip(3));
            lemma_decimal_injective(i as nat, j as nat);
        }
    }
    assert(names.map_values(|x: Seq<char>| ref_binding_prefix(mutable) + x) =~= Seq::new(
        n,
        |i: int| bind_text(i, mutable),
    ));
    assert(Seq::new(n, |i: int| ref_type_text(tys[i]@, mutable)) =~= tys.map_values(
        |t: String| ref_type_text(t@, mutable),
    ));
    if n != 1 {
        let j = join(names, ", "@);
        assert("::core::option::Option::Some("@ + ("("@ + j + ")"@) + ")"@ =~= "::core::option::Option::Some(("@
            + j + "))"@) by {
            reveal_strlit("::core::option::Option::Some(");
            reveal_strlit("::core::option::Option::Some((");
            reveal_strlit("(");
            reveal_strlit(")");
            reveal_strlit("))");
        }
    }
    assert(tuple_accessor_binding(variant, snake, tys, mutable, names) == tuple_accessor_text(
        variant,
        snake,
        tys,
        mutable,
    ));
}

/// The position of the `k`-th blank in a wildcard pattern `(_, _, ...)`.
pub open spec fn blank_pos(k: int) -> int {
    1 + 3 * k
}

/// `n` blanks separated by `, `: a blank every third character, a comma and
/// a space between consecutive ones.
proof fn lemma_blanks(n: nat)
    requires
        n >= 1,
    ensures
        join(Seq::new(n, |i: int| "_"@), ", "@).len() == 3 * n - 2,
        forall|k: int|
            0 <= k < n ==> join(Seq::new(n, |i: int| "_"@), ", "@)[(#[trigger] blank_pos(k)) - 1] == '_',
        forall|k: int|
            0 <= k < n - 1 ==> join(Seq::new(n, |i: int| "_"@), ", "@)[(#[trigger] blank_pos(k))] == ','
                && join(Seq::new(n, |i: int| "_"@), ", "@)[blank_pos(k) + 1] == ' ',
    decreases n,
{
    reveal_strlit("_");
    reveal_strlit(", ");
    let items = Seq::new(n, |i: int| "_"@);
    let s = join(items, ", "@);
    if n == 1 {
        assert(s == items[0]);
    } else {
        lemma_blanks((n - 1) as nat);
        let prev_items = Seq::new((n - 1) as nat, |i: int| "_"@);
        assert(items.drop_last() =~= prev_items);
        let p = join(prev_items, ", "@);
        assert(s == p + ", "@ + "_"@);
        assert forall|k: int| 0 <= k < n implies s[(#[trigger] blank_pos(k)) - 1] == '_' by {
            if k < n - 1 {
                assert(p[blank_pos(k) - 1] == '_');
            }
        }
        assert forall|k: int| 0 <= k < n - 1 implies s[(#[trigger] blank_pos(k))] == ',' && s[blank_pos(k)
            + 1] == ' ' by {
            if k < n - 2 {
                assert(p[blank_pos(k)] == ',' && p[blank_pos(k) + 1] == ' ');
            }
        }
    }
}

/// The part of an `is_*` pattern that follows the variant's path has one
/// blank per positional field: for `n` fields it is `(`, then a `_` at every
/// third position with `, ` between consecutive ones, then `)`, `3n`
/// characters in all (`()` for none). A unit variant gets nothing, a
/// struct-like one ` { .. }`.
pub proof fn law_wildcard_has_one_blank_per_field(fields: Fields)
    ensures
        match fields {
            Fields::Unit => wildcard_fields_text(fields).len() == 0,
            Fields::Named(_) => wildcard_fields_text(fields) == " { .. }"@,
            Fields::Unnamed(tys) => {
                let t = wildcard_fields_text(fields);
                let n = tys@.len();
                &&& t.len() == (if n == 0 { 2 } else { 3 * n })
                &&& t[0] == '('
                &&& t[t.len() - 1] == ')'
                &&& forall|k: int| 0 <= k < n ==> t[#[trigger] blank_pos(k)] == '_'
                &&& forall|k: int|
                    0 <= k < n - 1 ==> t[(#[trigger] blank_pos(k)) + 1] == ',' && t[blank_pos(k) + 2]
                        == ' '
            },
        },
{
    reveal_strlit("(");
    reveal_strlit(")");
    match fields {
        Fields::Unnamed(tys) => {
            let n = tys@.len();
            let s = join(Seq::new(n, |i: int| "_"@), ", "@);
            let t = wildcard_fields_text(fields);
            assert(t == "("@ + s + ")"@);
            if n == 0 {
                assert(s.len() == 0);
            } else {
                lemma_blanks(n);
                assert forall|k: int| 0 <= k < n implies t[#[trigger] blank_pos(k)] == '_' by {
                    assert(s[blank_pos(k) - 1] == '_');
                }
                assert forall|k: int| 0 <= k < n - 1 implies t[(#[trigger] blank_pos(k)) + 1] == ','
                    && t[blank_pos(k) + 2] == ' ' by {
                    assert(s[blank_pos(k)] == ',' && s[blank_pos(k) + 1] == ' ');
                }
            }
        },
        _ => {},
    }
}

/// Reading keeps each variant's kind of fields: a variant that `syn` reads
/// with parentheses, however many fields (none included), is described with
/// exactly those positional field types, never as a unit variant; one read
/// without fields is a unit variant; one read with braces keeps its number of
/// named fields.
pub proof fn law_reading_keeps_field_kinds(d: DeriveInput, text: Seq<char>, k: int)
    requires
        describes(d, text),
        body_syntax(text) matches Some(BodySyntax::Enum(vts)) && 0 <= k < vts@.len(),
    ensures
        match variant_syntax((body_syntax(text)->0->Enum_0)@[k]@) {
            Some(vs) => {
                &&& variants_of(d)[k].name == vs.ident
                &&& match vs.fields {
                    FieldsSyntax::Unit => variants_of(d)[k].fields is Unit,
                    FieldsSyntax::Unnamed(tys) => variants_of(d)[k].fields == Fields::Unnamed(tys),
                    FieldsSyntax::Named(fts) => variants_of(d)[k].fields matches Fields::Named(fs)
                        && fs@.len() == fts@.len(),
                }
            },
            None => false,
        },
{
    let vts = body_syntax(text)->0->Enum_0;
    assert(variant_describes(variants_of(d)[k], vts@[k]@));
}

/// A generic parameter as declared, without its default: its attributes,
/// then its name with `: bounds` when it has bounds, or `const N: ty`.
pub open spec fn declared_without_default(p: GenericParam) -> Seq<char> {
    match p {
        GenericParam::Lifetime { attrs, name, bounds } => attrs_text(attrs@) + name@ + (if bounds@.len()
            == 0 {
            Seq::empty()
        } else {
            ": "@ + bounds@
        }),
        GenericParam::Type { attrs, name, bounds, .. } => attrs_text(attrs@) + name@ + (if bounds@.len()
            == 0 {
            Seq::empty()
        } else {
            ": "@ + bounds@
        }),
        GenericParam::Const { attrs, name, ty, .. } => attrs_text(attrs@) + "const "@ + name@ + ": "@
            + ty@,
    }
}

/// The generics of the `impl` block are the enum's parameters as declared,
/// attributes and bounds included, with every default removed, in order and
/// separated by `, ` between `<` and `>` (nothing when there are none).
pub proof fn law_impl_generics_are_declarations_without_defaults(g: Generics)
    ensures
        impl_generics_text(g) == (if g.params@.len() == 0 {
            Seq::<char>::empty()
        } else {
            "<"@ + join(g.params@.map_values(|p: GenericParam| declared_without_default(p)), ", "@)
                + ">"@
        }),
{
    if g.params@.len() > 0 {
        assert forall|i: int| 0 <= i < g.params@.len() implies declared_without_default(
            #[trigger] g.params@[i],
        ) == param_impl_text(g.params@[i]) by {
            lemma_declared_is_impl_text(g.params@[i]);
        }
        assert(g.params@.map_values(|p: GenericParam| declared_without_default(p)) =~= g.params@.map_values(
            |p: GenericParam| param_impl_text(p),
        ));
    }
}

/// A parameter's `impl` text is its declaration without its default.
proof fn lemma_declared_is_impl_text(p: GenericParam)
    ensures
        declared_without_default(p) == param_impl_text(p),
{
    assert(declared_without_default(p) =~= param_impl_text(p));
}

/// Defaults never reach the `impl` generics: two parameter lists that differ
/// only in their defaults give the same `impl` generics.
pub proof fn law_impl_generics_ignore_defaults(g1: Generics, g2: Generics)
    requires
        g1.params@.len() == g2.params@.len(),
        forall|i: int|
            0 <= i < g1.params@.len() ==> declared_without_default(#[trigger] g1.params@[i])
                == declared_without_default(g2.params@[i]),
    ensures
        impl_generics_text(g1) == impl_generics_text(g2),
{
    law_impl_generics_are_declarations_without_defaults(g1);
    law_impl_generics_are_declarations_without_defaults(g2);
    assert(g1.params@.map_values(|p: GenericParam| declared_without_default(p)) =~= g2.params@.map_values(
        |p: GenericParam| declared_without_default(p),
    ));
}

} // verus!
