use crate::model::{GenericParam, Generics};
use crate::text::{attrs_string, attrs_text, concat_strings, concat_text, join, join_strings, views};
use vstd::prelude::*;

verus! {

/// The name of a generic parameter (`'a`, `T`, `N`).
pub open spec fn param_name(p: GenericParam) -> Seq<char> {
    match p {
        GenericParam::Lifetime { name, .. } => name@,
        GenericParam::Type { name, .. } => name@,
        GenericParam::Const { name, .. } => name@,
    }
}

/// `name` followed by `: bounds` when there are bounds.
pub open spec fn bounded(name: Seq<char>, bounds: Seq<char>) -> Seq<char> {
    if bounds.len() == 0 {
        name
    } else {
        name + ": "@ + bounds
    }
}

/// The outer attributes of a parameter.
pub open spec fn param_attrs(p: GenericParam) -> Seq<String> {
    match p {
        GenericParam::Lifetime { attrs, .. } => attrs@,
        GenericParam::Type { attrs, .. } => attrs@,
        GenericParam::Const { attrs, .. } => attrs@,
    }
}

/// A parameter as it stands in the generics of an `impl`: attributes and
/// bounds kept, default dropped.
pub open spec fn param_impl_text(p: GenericParam) -> Seq<char> {
    attrs_text(param_attrs(p)) + match p {
        GenericParam::Lifetime { name, bounds, .. } => bounded(name@, bounds@),
        GenericParam::Type { name, bounds, .. } => bounded(name@, bounds@),
        GenericParam::Const { name, ty, .. } => "const "@ + name@ + ": "@ + ty@,
    }
}

/// `text` followed by ` = default` when there is a default.
pub open spec fn with_default(text: Seq<char>, default: Option<String>) -> Seq<char> {
    match default {
        Some(d) => text + " = "@ + d@,
        None => text,
    }
}

/// A parameter as it stands in the declaration of a type: bounds and default kept.
pub open spec fn param_decl_text(p: GenericParam) -> Seq<char> {
    match p {
        GenericParam::Lifetime { .. } => param_impl_text(p),
        GenericParam::Type { default, .. } => with_default(param_impl_text(p), default),
        GenericParam::Const { default, .. } => with_default(param_impl_text(p), default),
    }
}

/// `<a, b, c>`.
pub open spec fn angle(items: Seq<Seq<char>>) -> Seq<char> {
    "<"@ + join(items, ", "@) + ">"@
}

/// The generics that follow `impl`: empty when the enum has no parameters.
pub open spec fn impl_generics_text(g: Generics) -> Seq<char> {
    if g.params@.len() == 0 {
        Seq::empty()
    } else {
        angle(g.params@.map_values(|p: GenericParam| param_impl_text(p)))
    }
}

/// The generic arguments that follow the enum's name in the `impl` header.
pub open spec fn type_generics_text(g: Generics) -> Seq<char> {
    if g.params@.len() == 0 {
        Seq::empty()
    } else {
        angle(g.params@.map_values(|p: GenericParam| param_name(p)))
    }
}

/// The `where` clause, or nothing.
pub open spec fn where_clause_text(g: Generics) -> Seq<char> {
    match g.where_clause {
        Some(w) => w@,
        None => Seq::empty(),
    }
}

/// `s` without its first character (the quote of a lifetime).
pub open spec fn tail(s: Seq<char>) -> Seq<char> {
    if s.len() == 0 {
        s
    } else {
        s.skip(1)
    }
}

/// The part of the fresh lifetime that a parameter contributes.
pub open spec fn lifetime_suffix(p: GenericParam) -> Seq<char> {
    match p {
        GenericParam::Lifetime { name, .. } => tail(name@),
        _ => Seq::empty(),
    }
}

/// Whether the enum already declares a parameter named `name`.
pub open spec fn declares(g: Generics, name: Seq<char>) -> bool {
    exists|i: int| 0 <= i < g.params@.len() && #[trigger] param_name(g.params@[i]) == name
}

/// The lifetime of the borrow held by a helper struct: `'a`, or, when the
/// enum already declares `'a`, `'a` followed by the names of all the enum's
/// lifetimes, which is longer than each of them.
pub open spec fn helper_lifetime_text(g: Generics) -> Seq<char> {
    if declares(g, "'a"@) {
        "'a"@ + concat_text(g.params@.map_values(|p: GenericParam| lifetime_suffix(p)))
    } else {
        "'a"@
    }
}

/// The generics of a helper struct: the borrow lifetime, then the enum's
/// parameters as declared.
pub open spec fn helper_generics_text(g: Generics, lifetime: Seq<char>) -> Seq<char> {
    angle(seq![lifetime] + g.params@.map_values(|p: GenericParam| param_decl_text(p)))
}

/// The arguments of a helper struct in a method's return type: the borrow of
/// `&self`, then the enum's parameters.
pub open spec fn helper_args_text(g: Generics) -> Seq<char> {
    angle(seq!["'_"@] + g.params@.map_values(|p: GenericParam| param_name(p)))
}

fn name_of(p: &GenericParam) -> (res: &String)
    ensures
        res@ == param_name(*p),
{
    match p {
        GenericParam::Lifetime { name, .. } => name,
        GenericParam::Type { name, .. } => name,
        GenericParam::Const { name, .. } => name,
    }
}

fn bounded_string(name: &String, bounds: &String) -> (res: String)
    ensures
        res@ == bounded(name@, bounds@),
{
    let mut out = name.clone();
    if bounds.as_str().unicode_len() != 0 {
        out.append(": ");
        out.append(bounds.as_str());
    }
    out
}

fn param_impl(p: &GenericParam) -> (res: String)
    ensures
        res@ == param_impl_text(*p),
{
    let (attrs, core) = match p {
        GenericParam::Lifetime { attrs, name, bounds } => (attrs, bounded_string(name, bounds)),
        GenericParam::Type { attrs, name, bounds, .. } => (attrs, bounded_string(name, bounds)),
        GenericParam::Const { attrs, name, ty, .. } => {
            let mut out = String::from_str("const ");
            out.append(name.as_str());
            out.append(": ");
            out.append(ty.as_str());
            (attrs, out)
        },
    };
    let mut out = attrs_string(attrs);
    out.append(core.as_str());
    out
}

fn add_default(text: String, default: &Option<String>) -> (res: String)
    ensures
        res@ == with_default(text@, *default),
{
    let mut out = text;
    match default {
        Some(d) => {
            out.append(" = ");
            out.append(d.as_str());
        },
        None => {},
    }
    out
}

fn param_decl(p: &GenericParam) -> (res: String)
    ensures
        res@ == param_decl_text(*p),
{
    match p {
        GenericParam::Lifetime { .. } => param_impl(p),
        GenericParam::Type { default, .. } => add_default(param_impl(p), default),
        GenericParam::Const { default, .. } => add_default(param_impl(p), default),
    }
}

fn angle_string(items: &Vec<String>) -> (res: String)
    ensures
        res@ == angle(views(items@)),
{
    let mut out = String::from_str("<");
    let inner = join_strings(items, ", ");
    out.append(inner.as_str());
    out.append(">");
    out
}

/// Renders the generics that follow `impl` (bounds kept, defaults dropped).
pub fn impl_generics(g: &Generics) -> (res: String)
    ensures
        res@ == impl_generics_text(*g),
{
    let n = g.params.len();
    if n == 0 {
        return String::new();
    }
    let mut pieces: Vec<String> = Vec::new();
    let mut i: usize = 0;
    while i < n
        invariant
            i <= n,
            n == g.params@.len(),
            pieces@.len() == i,
            forall|j: int| 0 <= j < i ==> #[trigger] pieces@[j]@ == param_impl_text(g.params@[j]),
        decreases n - i,
    {
        let piece = param_impl(&g.params[i]);
        pieces.push(piece);
        i = i + 1;
    }
    proof {
        assert(views(pieces@) =~= g.params@.map_values(|p: GenericParam| param_impl_text(p)));
    }
    angle_string(&pieces)
}

/// Renders the generic arguments of the enum's own type (names only).
pub fn type_generics(g: &Generics) -> (res: String)
    ensures
        res@ == type_generics_text(*g),
{
    let n = g.params.len();
    if n == 0 {
        return String::new();
    }
    let mut pieces: Vec<String> = Vec::new();
    let mut i: usize = 0;
    while i < n
        invariant
            i <= n,
            n == g.params@.len(),
            pieces@.len() == i,
            forall|j: int| 0 <= j < i ==> #[trigger] pieces@[j]@ == param_name(g.params@[j]),
        decreases n - i,
    {
        let piece = name_of(&g.params[i]).clone();
        pieces.push(piece);
        i = i + 1;
    }
    proof {
        assert(views(pieces@) =~= g.params@.map_values(|p: GenericParam| param_name(p)));
    }
    angle_string(&pieces)
}

/// Renders the `where` clause of the enum, or nothing when it has none.
pub fn where_clause_tokens(g: &Generics) -> (res: String)
    ensures
        res@ == where_clause_text(*g),
{
    match &g.where_clause {
        Some(w) => w.clone(),
        None => String::new(),
    }
}

fn lifetime_suffix_string(p: &GenericParam) -> (res: String)
    ensures
        res@ == lifetime_suffix(*p),
{
    match p {
        GenericParam::Lifetime { name, .. } => {
            let l = name.as_str().unicode_len();
            if l == 0 {
                String::new()
            } else {
                String::from_str(name.as_str().substring_char(1, l))
            }
        },
        _ => String::new(),
    }
}

/// Chooses the lifetime of the borrow held by helper structs.
pub fn helper_lifetime(g: &Generics) -> (res: String)
    ensures
        res@ == helper_lifetime_text(*g),
{
    let a = String::from_str("'a");
    let n = g.params.len();
    let mut found = false;
    let mut i: usize = 0;
    while i < n
        invariant
            i <= n,
            n == g.params@.len(),
            a@ == "'a"@,
            found <==> exists|j: int| 0 <= j < i && #[trigger] param_name(g.params@[j]) == "'a"@,
        decreases n - i,
    {
        let same = name_of(&g.params[i]).eq(&a);
        assert(same == (param_name(g.params@[i as int]) == "'a"@));
        if same {
            found = true;
        }
        i = i + 1;
    }
    if !found {
        return a;
    }
    let mut pieces: Vec<String> = Vec::new();
    let mut k: usize = 0;
    while k < n
        invariant
            k <= n,
            n == g.params@.len(),
            pieces@.len() == k,
            forall|j: int| 0 <= j < k ==> #[trigger] pieces@[j]@ == lifetime_suffix(g.params@[j]),
        decreases n - k,
    {
        let piece = lifetime_suffix_string(&g.params[k]);
        pieces.push(piece);
        k = k + 1;
    }
    proof {
        assert(views(pieces@) =~= g.params@.map_values(|p: GenericParam| lifetime_suffix(p)));
    }
    let suffix = concat_strings(&pieces);
    let mut out = a;
    out.append(suffix.as_str());
    out
}

/// Renders the generics of a helper struct: `lifetime` first, then the
/// enum's parameters as declared.
pub fn generics_with_leading_a(g: &Generics, lifetime: &str) -> (res: String)
    ensures
        res@ == helper_generics_text(*g, lifetime@),
{
    let n = g.params.len();
    let mut pieces: Vec<String> = Vec::new();
    pieces.push(String::from_str(lifetime));
    let mut i: usize = 0;
    while i < n
        invariant
            i <= n,
            n == g.params@.len(),
            pieces@.len() == i + 1,
            pieces@[0]@ == lifetime@,
            forall|j: int| 0 <= j < i ==> #[trigger] pieces@[j + 1]@ == param_decl_text(g.params@[j]),
        decreases n - i,
    {
        let piece = param_decl(&g.params[i]);
        pieces.push(piece);
        i = i + 1;
    }
    proof {
        let expected = seq![lifetime@] + g.params@.map_values(|p: GenericParam| param_decl_text(p));
        assert forall|j: int| 0 <= j < views(pieces@).len() implies views(pieces@)[j] == expected[j] by {
            if j > 0 {
                assert(pieces@[(j - 1) + 1]@ == param_decl_text(g.params@[j - 1]));
            }
        }
        assert(views(pieces@) =~= expected);
    }
    angle_string(&pieces)
}

/// Renders the arguments of a helper struct in a return type: the borrow of
/// `&self` (`'_`), then the names of the enum's parameters.
pub fn generics_args_with_a(g: &Generics) -> (res: String)
    ensures
        res@ == helper_args_text(*g),
{
    let n = g.params.len();
    let mut pieces: Vec<String> = Vec::new();
    pieces.push(String::from_str("'_"));
    let mut i: usize = 0;
    while i < n
        invariant
            i <= n,
            n == g.params@.len(),
            pieces@.len() == i + 1,
            pieces@[0]@ == "'_"@,
            forall|j: int| 0 <= j < i ==> #[trigger] pieces@[j + 1]@ == param_name(g.params@[j]),
        decreases n - i,
    {
        let piece = name_of(&g.params[i]).clone();
        pieces.push(piece);
        i = i + 1;
    }
    proof {
        let expected = seq!["'_"@] + g.params@.map_values(|p: GenericParam| param_name(p));
        assert forall|j: int| 0 <= j < views(pieces@).len() implies views(pieces@)[j] == expected[j] by {
            if j > 0 {
                assert(pieces@[(j - 1) + 1]@ == param_name(g.params@[j - 1]));
            }
        }
        assert(views(pieces@) =~= expected);
    }
    angle_string(&pieces)
}

/// A joined sequence is at least as long as each of its items.
pub proof fn lemma_join_len_ge(items: Seq<Seq<char>>, sep: Seq<char>, k: int)
    requires
        0 <= k < items.len(),
    ensures
        join(items, sep).len() >= items[k].len(),
    decreases items.len(),
{
    if items.len() > 1 && k < items.len() - 1 {
        lemma_join_len_ge(items.drop_last(), sep, k);
    }
}

/// The borrow lifetime of helper structs is none of the enum's own lifetimes,
/// so declaring it beside them never declares a lifetime twice.
pub proof fn lemma_helper_lifetime_fresh(g: Generics, i: int)
    requires
        0 <= i < g.params@.len(),
        g.params@[i] is Lifetime,
    ensures
        helper_lifetime_text(g) != param_name(g.params@[i]),
{
    let name = param_name(g.params@[i]);
    reveal_strlit("'a");
    if declares(g, "'a"@) {
        let suffixes = g.params@.map_values(|p: GenericParam| lifetime_suffix(p));
        lemma_join_len_ge(suffixes, Seq::empty(), i);
        assert(suffixes[i] == tail(name));
        assert(helper_lifetime_text(g).len() > name.len());
    } else {
        assert(param_name(g.params@[i]) != "'a"@);
    }
}

/// The header of the generated inherent `impl` block, up to its opening brace.
pub open spec fn impl_header_text(ident: Seq<char>, g: Generics) -> Seq<char> {
    "impl"@ + impl_generics_text(g) + " "@ + ident + type_generics_text(g) + " "@
        + where_clause_text(g) + " {"@
}

/// Renders the header of the inherent `impl` block for the enum `ident`.
pub fn impl_header(ident: &String, g: &Generics) -> (res: String)
    ensures
        res@ == impl_header_text(ident@, *g),
{
    let ig = impl_generics(g);
    let tg = type_generics(g);
    let wc = where_clause_tokens(g);
    let mut out = String::from_str("impl");
    out.append(ig.as_str());
    out.append(" ");
    out.append(ident.as_str());
    out.append(tg.as_str());
    out.append(" ");
    out.append(wc.as_str());
    out.append(" {");
    out
}

} // verus!
