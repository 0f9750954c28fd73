use crate::model::Variant;
use crate::text::views;
use heck::ToSnakeCase;
use vstd::prelude::*;

verus! {

/// The snake-case form that `heck` computes for an identifier.
pub uninterp spec fn snake_case(s: Seq<char>) -> Seq<char>;

/// Calls `heck::ToSnakeCase::to_snake_case` on `s`.
/// Trusted: the result is `snake_case` of the characters of `s`; heck's
/// conversion depends on its argument alone (it splits words and lowercases
/// them with std's Unicode tables).
#[verifier::external_body]
fn to_snake_case(s: &str) -> (res: String)
    ensures
        res@ == snake_case(s@),
{
    s.to_snake_case()
}

/// The snake-case names of the variants, in order.
pub open spec fn snake_names(vs: Seq<Variant>) -> Seq<Seq<char>> {
    vs.map_values(|v: Variant| snake_case(v.name@))
}

/// Computes the snake-case name of every variant, in order.
pub fn variant_snake_names(vs: &Vec<Variant>) -> (res: Vec<String>)
    ensures
        views(res@) == snake_names(vs@),
{
    let n = vs.len();
    let mut out: Vec<String> = Vec::new();
    let mut i: usize = 0;
    while i < n
        invariant
            i <= n,
            n == vs@.len(),
            out@.len() == i,
            forall|j: int| 0 <= j < i ==> #[trigger] out@[j]@ == snake_case(vs@[j].name@),
        decreases n - i,
    {
        out.push(to_snake_case(vs[i].name.as_str()));
        i = i + 1;
    }
    assert(views(out@) =~= snake_names(vs@));
    out
}

/// The `is_*` method name for a variant whose snake-case name is `snake`.
pub open spec fn is_name_from_snake(snake: Seq<char>) -> Seq<char> {
    "is_"@ + snake
}

/// Name of the generated predicate method for a variant: `is_<snake>`.
pub open spec fn is_method_name(variant: Seq<char>) -> Seq<char> {
    is_name_from_snake(snake_case(variant))
}

/// Returns `is_<snake>`.
pub fn is_method_name_from_snake(snake: &str) -> (res: String)
    ensures
        res@ == is_name_from_snake(snake@),
{
    let mut out = String::from_str("is_");
    out.append(snake);
    out
}

/// Returns the name of the `is_*` method generated for `variant`.
pub fn is_variant_method_name(variant: &str) -> (res: String)
    ensures
        res@ == is_method_name(variant@),
{
    let snake = to_snake_case(variant);
    is_method_name_from_snake(snake.as_str())
}

/// The `as_*` method name (`as_*_mut` when `mutable`) for a variant whose
/// snake-case name is `snake`.
pub open spec fn as_name_from_snake(snake: Seq<char>, mutable: bool) -> Seq<char> {
    if mutable {
        "as_"@ + snake + "_mut"@
    } else {
        "as_"@ + snake
    }
}

/// Name of the generated borrowing accessor for a variant: `as_<snake>`,
/// or `as_<snake>_mut` for the mutable one.
pub open spec fn as_method_name(variant: Seq<char>, mutable: bool) -> Seq<char> {
    as_name_from_snake(snake_case(variant), mutable)
}

/// Returns `as_<snake>`, or `as_<snake>_mut` when `mutable`.
pub fn as_method_name_from_snake(snake: &str, mutable: bool) -> (res: String)
    ensures
        res@ == as_name_from_snake(snake@, mutable),
{
    let mut out = String::from_str("as_");
    out.append(snake);
    if mutable {
        out.append("_mut");
    }
    out
}

/// Returns the name of the `as_*` (or, when `mutable`, `as_*_mut`) method
/// generated for `variant`.
pub fn as_variant_method_name(variant: &str, mutable: bool) -> (res: String)
    ensures
        res@ == as_method_name(variant@, mutable),
{
    let snake = to_snake_case(variant);
    as_method_name_from_snake(snake.as_str(), mutable)
}

/// Name of the helper struct generated for a struct-like variant: the enum's
/// name followed by the variant's name.
pub open spec fn helper_struct_name(enum_name: Seq<char>, variant: Seq<char>) -> Seq<char> {
    enum_name + variant
}

/// Returns the name of the helper struct for `variant` of `enum_name`.
pub fn helper_struct_ident(enum_name: &str, variant: &str) -> (res: String)
    ensures
        res@ == helper_struct_name(enum_name@, variant@),
{
    let mut out = String::from_str(enum_name);
    out.append(variant);
    out
}

} // verus!
