use crate::as_variant::{
    as_variant_not_enum_text, as_variant_output, malformed_derive_text,
};
use crate::derives::{allowed_derive_names, kept_paths, names_ident};
use crate::derives::has_malformed_derive;
use crate::is_variant::{is_variant_not_enum_text, is_variant_output};
use crate::model::{variants_of, DeriveInput, Variant};
use crate::naming::{as_method_name, is_method_name, snake_case};
use crate::semantics::{
    as_mut_named, as_named, field_count, EnumValue, first_index, first_with, generated_is, has_mut_accessor, is_named,
    is_value_of, lemma_first_index,
};
use vstd::prelude::*;

verus! {

/// No two variants have the same snake-case name, so that no two generated
/// methods share a name.
pub open spec fn snake_names_distinct(vs: Seq<Variant>) -> bool {
    forall|i: int, j: int|
        0 <= i < vs.len() && 0 <= j < vs.len() && i != j ==> snake_case(#[trigger] vs[i].name@)
            != snake_case(#[trigger] vs[j].name@)
}

proof fn lemma_prefix_cancel(p: Seq<char>, x: Seq<char>, y: Seq<char>)
    requires
        p + x == p + y,
    ensures
        x == y,
{
    assert((p + x).skip(p.len() as int) =~= x);
    assert((p + y).skip(p.len() as int) =~= y);
}

proof fn lemma_affix_cancel(p: Seq<char>, x: Seq<char>, y: Seq<char>, q: Seq<char>)
    requires
        p + x + q == p + y + q,
    ensures
        x == y,
{
    assert((p + x).len() == p.len() + x.len());
    assert((p + y).len() == p.len() + y.len());
    assert((p + x + q).len() == (p + x).len() + q.len());
    assert((p + y + q).len() == (p + y).len() + q.len());
    assert((p + x + q).len() == (p + y + q).len());
    assert(x.len() == y.len());
    assert((p + x + q).subrange(p.len() as int, (p.len() + x.len()) as int) =~= x);
    assert((p + y + q).subrange(p.len() as int, (p.len() + y.len()) as int) =~= y);
}

/// Distinct snake-case names give distinct accessor names.
proof fn lemma_names_injective(a: Seq<char>, b: Seq<char>)
    requires
        snake_case(a) != snake_case(b),
    ensures
        is_method_name(a) != is_method_name(b),
        as_method_name(a, false) != as_method_name(b, false),
        as_method_name(a, true) != as_method_name(b, true),
{
    if is_method_name(a) == is_method_name(b) {
        lemma_prefix_cancel("is_"@, snake_case(a), snake_case(b));
    }
    if as_method_name(a, false) == as_method_name(b, false) {
        lemma_prefix_cancel("as_"@, snake_case(a), snake_case(b));
    }
    if as_method_name(a, true) == as_method_name(b, true) {
        lemma_affix_cancel("as_"@, snake_case(a), snake_case(b), "_mut"@);
    }
}

/// The generated `is_<variant>` method returns `true` exactly on values of
/// that variant (and `false` on every other value).
pub proof fn law_is_method_holds_exactly_on_its_variant<V>(
    input: DeriveInput,
    i: int,
    value: EnumValue<V>,
)
    requires
        input.data is Enum,
        0 <= i < variants_of(input).len(),
        snake_names_distinct(variants_of(input)),
    ensures
        generated_is(input, is_method_name(variants_of(input)[i].name@), value) == Some(
            value.variant@ == variants_of(input)[i].name@,
        ),
{
    let vs = variants_of(input);
    let m = is_method_name(vs[i].name@);
    assert forall|j: int| 0 <= j < i implies !is_named(m)(#[trigger] vs[j]) by {
        lemma_names_injective(vs[j].name@, vs[i].name@);
    }
    lemma_first_index(vs, is_named(m), i);
}

/// On any value of the enum, exactly one generated `is_*` method returns
/// `true`: the one of the value's variant.
pub proof fn law_exactly_one_is_method_holds<V>(input: DeriveInput, value: EnumValue<V>)
    requires
        is_value_of(input, value),
        snake_names_distinct(variants_of(input)),
    ensures
        exists|i: int|
            0 <= i < variants_of(input).len() && #[trigger] generated_is(
                input,
                is_method_name(variants_of(input)[i].name@),
                value,
            ) == Some(true),
        forall|i: int, j: int|
            0 <= i < variants_of(input).len() && 0 <= j < variants_of(input).len() && generated_is(
                input,
                is_method_name(variants_of(input)[i].name@),
                value,
            ) == Some(true) && generated_is(
                input,
                is_method_name(variants_of(input)[j].name@),
                value,
            ) == Some(true) ==> i == j,
{
    let vs = variants_of(input);
    let k = choose|k: int|
        0 <= k < vs.len() && #[trigger] vs[k].name@ == value.variant@ && field_count(
            vs[k].fields,
        ) == value.fields@.len();
    law_is_method_holds_exactly_on_its_variant(input, k, value);
    assert forall|i: int, j: int|
        0 <= i < vs.len() && 0 <= j < vs.len() && generated_is(
            input,
            is_method_name(vs[i].name@),
            value,
        ) == Some(true) && generated_is(input, is_method_name(vs[j].name@), value) == Some(
            true,
        ) implies i == j by {
        law_is_method_holds_exactly_on_its_variant(input, i, value);
        law_is_method_holds_exactly_on_its_variant(input, j, value);
    }
}

/// The generated `as_<variant>` accessor (and, for unit and tuple variants,
/// `as_<variant>_mut`) belongs to that variant, the same one as
/// `is_<variant>`: it hands out a borrow exactly on the values for which
/// `is_<variant>` returns `true`.
pub proof fn law_accessors_agree_with_is<V>(input: DeriveInput, i: int, value: EnumValue<V>)
    requires
        input.data is Enum,
        0 <= i < variants_of(input).len(),
        snake_names_distinct(variants_of(input)),
    ensures
        first_index(variants_of(input), is_named(is_method_name(variants_of(input)[i].name@)))
            == Some(i),
        first_index(variants_of(input), as_named(as_method_name(variants_of(input)[i].name@, false)))
            == Some(i),
        has_mut_accessor(variants_of(input)[i]) ==> first_index(
            variants_of(input),
            as_mut_named(as_method_name(variants_of(input)[i].name@, true)),
        ) == Some(i),
        generated_is(input, is_method_name(variants_of(input)[i].name@), value) == Some(
            value.variant@ == variants_of(input)[i].name@,
        ),
{
    let vs = variants_of(input);
    let name = vs[i].name@;
    assert forall|j: int| 0 <= j < i implies {
        &&& !is_named(is_method_name(name))(#[trigger] vs[j])
        &&& !as_named(as_method_name(name, false))(vs[j])
        &&& !as_mut_named(as_method_name(name, true))(vs[j])
    } by {
        lemma_names_injective(vs[j].name@, name);
    }
    lemma_first_index(vs, is_named(is_method_name(name)), i);
    lemma_first_index(vs, as_named(as_method_name(name, false)), i);
    if has_mut_accessor(vs[i]) {
        lemma_first_index(vs, as_mut_named(as_method_name(name, true)), i);
    }
    law_is_method_holds_exactly_on_its_variant(input, i, value);
}

/// Struct-like variants get no `as_*_mut` accessor: no mutable accessor
/// name leads to one.
pub proof fn law_no_mut_accessor_for_named_variants(input: DeriveInput, method: Seq<char>)
    ensures
        first_index(variants_of(input), as_mut_named(method)) matches Some(i) ==> !(variants_of(
            input,
        )[i].fields is Named),
{
    let vs = variants_of(input);
    let p = as_mut_named(method);
    if exists|i: int| first_with(vs, p, i) {
        let i = choose|i: int| first_with(vs, p, i);
        assert(p(vs[i]));
    }
}

/// The derives mirrored from one `derive(...)` list are exactly its single
/// identifiers that are on the whitelist.
pub proof fn law_mirrored_derives_are_whitelisted(paths: Seq<Option<String>>, name: Seq<char>)
    ensures
        kept_paths(paths).contains(name) <==> (allowed_derive_names().contains(name) && exists|t: int|
            0 <= t < paths.len() && names_ident(#[trigger] paths[t], name)),
    decreases paths.len(),
{
    if paths.len() > 0 {
        let init = paths.drop_last();
        law_mirrored_derives_are_whitelisted(init, name);
        let in_paths = exists|t: int| 0 <= t < paths.len() && names_ident(#[trigger] paths[t], name);
        let in_init = exists|t: int| 0 <= t < init.len() && names_ident(#[trigger] init[t], name);
        if in_init {
            let t = choose|t: int| 0 <= t < init.len() && names_ident(#[trigger] init[t], name);
            assert(paths[t] == init[t]);
        }
        if in_paths {
            let t = choose|t: int| 0 <= t < paths.len() && names_ident(#[trigger] paths[t], name);
            if t < paths.len() - 1 {
                assert(init[t] == paths[t]);
            }
        }
        let rest = kept_paths(init);
        match paths.last() {
            Some(w) => {
                if allowed_derive_names().contains(w@) {
                    assert(kept_paths(paths) == rest.push(w@));
                    if rest.push(w@).contains(name) {
                        let k = choose|k: int| 0 <= k < rest.push(w@).len() && rest.push(w@)[k] == name;
                        if k < rest.len() {
                            assert(rest.contains(name));
                        }
                    }
                    if rest.contains(name) {
                        let k = choose|k: int| 0 <= k < rest.len() && rest[k] == name;
                        assert(rest.push(w@)[k] == name);
                    }
                    if w@ == name {
                        assert(rest.push(w@)[rest.len() as int] == name);
                    }
                }
            },
            None => {},
        }
    }
}

/// Both derives refuse an input that is not an enum with an error.
pub proof fn law_non_enums_are_refused(input: DeriveInput)
    requires
        !(input.data is Enum),
    ensures
        is_variant_output(input) == is_variant_not_enum_text(),
        as_variant_output(input) == as_variant_not_enum_text(),
{
}

/// On an enum, `EnumIsVariant` never outputs its error: its output ends with
/// the `}` that closes the `impl` block, while the error ends with `;`.
pub proof fn law_is_variant_succeeds_on_enums(input: DeriveInput)
    requires
        input.data is Enum,
    ensures
        is_variant_output(input) != is_variant_not_enum_text(),
        is_variant_output(input).last() == '}',
{
    reveal_strlit("}");
    reveal_strlit("compile_error!(\"EnumIsVariant can only be derived for enums.\");");
    assert(is_variant_output(input).last() == '}');
    assert(is_variant_not_enum_text().last() == ';');
}

/// On an enum whose `derive` attributes are all lists of paths,
/// `EnumAsVariant` outputs neither of its errors: its output ends with the
/// `}` that closes the `impl` block, while each error ends with `;`.
pub proof fn law_as_variant_succeeds_on_enums(input: DeriveInput)
    requires
        input.data is Enum,
        !has_malformed_derive(input.attrs@),
    ensures
        as_variant_output(input) != as_variant_not_enum_text(),
        as_variant_output(input) != malformed_derive_text(),
        as_variant_output(input).last() == '}',
{
    reveal_strlit("}");
    reveal_strlit("compile_error!(\"EnumAsVariant can only be derived for enums.\");");
    reveal_strlit("compile_error!(\"expected the `derive(...)` attribute to contain a list of paths\");");
    assert(as_variant_output(input).last() == '}');
    assert(as_variant_not_enum_text().last() == ';');
    assert(malformed_derive_text().last() == ';');
}

} // verus!
