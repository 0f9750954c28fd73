use crate::laws::law_mirrored_derives_are_whitelisted;
use crate::model::Attribute;
use crate::text::{join, join_strings, views};
use syn::parse::Parser;
use vstd::prelude::*;

verus! {

/// The derives that may be mirrored onto generated helper structs.
pub open spec fn allowed_derive_names() -> Seq<Seq<char>> {
    seq!["Debug"@, "Clone"@, "Copy"@, "PartialEq"@, "Eq"@, "PartialOrd"@, "Ord"@, "Hash"@]
}

/// The entries of one `derive(...)` list that are kept: single identifiers
/// on the whitelist, in the order written.
pub open spec fn kept_paths(paths: Seq<Option<String>>) -> Seq<Seq<char>>
    decreases paths.len(),
{
    if paths.len() == 0 {
        Seq::empty()
    } else {
        let rest = kept_paths(paths.drop_last());
        match paths.last() {
            Some(w) => if allowed_derive_names().contains(w@) {
                rest.push(w@)
            } else {
                rest
            },
            None => rest,
        }
    }
}

/// The entries of a `derive(...)` list whose tokens are `tokens`, as `syn`
/// reads them as comma-separated paths: for each path its identifier when it
/// is a single identifier, `None` otherwise; `None` as a whole when the
/// tokens are not such a list.
pub uninterp spec fn derive_list_paths(tokens: Seq<char>) -> Option<Vec<Option<String>>>;

/// The path is the single identifier `name`.
pub open spec fn names_ident(path: Option<String>, name: Seq<char>) -> bool {
    match path {
        Some(w) => w@ == name,
        None => false,
    }
}

/// `paths` are exactly the single identifiers `names`, in order.
pub open spec fn lists_idents(paths: Seq<Option<String>>, names: Seq<Seq<char>>) -> bool {
    &&& paths.len() == names.len()
    &&& forall|k: int| 0 <= k < names.len() ==> names_ident(#[trigger] paths[k], names[k])
}

/// Every entry of `names` is on the whitelist.
pub open spec fn whitelisted(names: Seq<Seq<char>>) -> bool {
    forall|k: int| 0 <= k < names.len() ==> allowed_derive_names().contains(#[trigger] names[k])
}

/// The text of a rebuilt `derive` list: its entries separated by `, `.
pub open spec fn derive_list_text(names: Seq<Seq<char>>) -> Seq<char> {
    join(names, ", "@)
}

/// Switches proc-macro2 to its own lexer (`proc_macro2::fallback::force`,
/// for the whole process), then calls `syn`'s
/// `Punctuated::<Path, Comma>::parse_terminated` on the tokens of a
/// `derive(...)` list and takes each path's `get_ident`. Trusted: the result
/// is `derive_list_paths` of the tokens. Also trusted, from the grammar of
/// paths: whitelisted names separated by `, ` read as those single identifiers.
#[verifier::external_body]
pub(crate) fn parse_derive_list(tokens: &str) -> (res: Option<Vec<Option<String>>>)
    ensures
        res == derive_list_paths(tokens@),
        forall|names: Seq<Seq<char>>| whitelisted(names) && tokens@ == #[trigger] derive_list_text(names)
            ==> res is Some && lists_idents(res->0@, names),
{
    proc_macro2::fallback::force();
    let parser = syn::punctuated::Punctuated::<syn::Path, syn::token::Comma>::parse_terminated;
    let paths = parser.parse_str(tokens).ok()?;
    Some(paths.iter().map(|p| p.get_ident().map(|i| i.to_string())).collect())
}

/// Whether an attribute is acceptable to the derive: every `derive`
/// attribute must be a list of paths.
pub open spec fn derive_attr_ok(a: Attribute) -> bool {
    match a {
        Attribute::Derive(tokens) => derive_list_paths(tokens@) is Some,
        Attribute::DeriveNotList => false,
        Attribute::Other => true,
    }
}

/// For each `derive` attribute of the input, in order, the list of its kept
/// entries; attributes that keep nothing are left out.
pub open spec fn kept_derive_lists(attrs: Seq<Attribute>) -> Seq<Seq<Seq<char>>>
    decreases attrs.len(),
{
    if attrs.len() == 0 {
        Seq::empty()
    } else {
        let rest = kept_derive_lists(attrs.drop_last());
        match attrs.last() {
            Attribute::Derive(tokens) => match derive_list_paths(tokens@) {
                Some(paths) => {
                    let kept = kept_paths(paths@);
                    if kept.len() > 0 {
                        rest.push(kept)
                    } else {
                        rest
                    }
                },
                None => rest,
            },
            _ => rest,
        }
    }
}

/// Whether some `derive` attribute of the input is not a list of paths.
pub open spec fn has_malformed_derive(attrs: Seq<Attribute>) -> bool {
    exists|i: int| 0 <= i < attrs.len() && !derive_attr_ok(#[trigger] attrs[i])
}

/// The attribute text `#[derive(A, B)]` for a kept list.
pub open spec fn derive_attr_text(names: Seq<Seq<char>>) -> Seq<char> {
    "#[derive("@ + derive_list_text(names) + ")]"@
}

/// `a` is a `derive` list whose tokens are the text of the list `names`.
pub open spec fn is_list_attr(a: Attribute, names: Seq<Seq<char>>) -> bool {
    match a {
        Attribute::Derive(tokens) => tokens@ == derive_list_text(names),
        _ => false,
    }
}

/// `again` are the attributes that rebuilt texts stand for: for each kept
/// list, in order, a `derive` list whose tokens are the text between the
/// parentheses of its rebuilt attribute.
pub open spec fn rebuilt_attrs(again: Seq<Attribute>, lists: Seq<Seq<Seq<char>>>) -> bool {
    &&& again.len() == lists.len()
    &&& forall|i: int| 0 <= i < lists.len() ==> #[trigger] is_list_attr(again[i], lists[i])
}

/// Each list's text reads back as its own identifiers.
pub open spec fn reads_back(lists: Seq<Seq<Seq<char>>>) -> bool {
    forall|i: int|
        0 <= i < lists.len() ==> (derive_list_paths(derive_list_text(#[trigger] lists[i])) matches Some(v)
            && lists_idents(v@, lists[i]))
}

/// Each list is non-empty and whitelisted.
pub open spec fn kept_shape(lists: Seq<Seq<Seq<char>>>) -> bool {
    forall|i: int| 0 <= i < lists.len() ==> (#[trigger] lists[i]).len() > 0 && whitelisted(lists[i])
}

/// A list whose entries are all whitelisted identifiers is kept whole.
proof fn lemma_kept_paths_of_idents(q: Seq<Option<String>>, names: Seq<Seq<char>>)
    requires
        lists_idents(q, names),
        whitelisted(names),
    ensures
        kept_paths(q) == names,
    decreases q.len(),
{
    if q.len() > 0 {
        let n = q.len() - 1;
        lemma_kept_paths_of_idents(q.drop_last(), names.drop_last());
        assert(names_ident(q[n], names[n]));
        assert(allowed_derive_names().contains(names[n]));
        assert(q.last() == q[n]);
        assert(names.drop_last().push(names[n]) =~= names);
    } else {
        assert(names =~= Seq::<Seq<char>>::empty());
    }
}

/// Filtering the attributes that rebuilt lists stand for keeps every list
/// whole and refuses none.
proof fn lemma_refilter(lists: Seq<Seq<Seq<char>>>, again: Seq<Attribute>)
    requires
        reads_back(lists),
        kept_shape(lists),
        rebuilt_attrs(again, lists),
    ensures
        !has_malformed_derive(again),
        kept_derive_lists(again) == lists,
    decreases again.len(),
{
    assert forall|i: int| 0 <= i < again.len() implies derive_attr_ok(#[trigger] again[i]) by {
        assert(is_list_attr(again[i], lists[i]));
        assert(derive_list_paths(derive_list_text(lists[i])) is Some);
    }
    if again.len() > 0 {
        let n = again.len() - 1;
        let (l0, a0) = (lists.drop_last(), again.drop_last());
        assert forall|i: int| 0 <= i < l0.len() implies #[trigger] is_list_attr(a0[i], l0[i]) by {
            assert(is_list_attr(again[i], lists[i]));
        }
        assert forall|i: int| 0 <= i < l0.len() implies (derive_list_paths(
            derive_list_text(#[trigger] l0[i]),
        ) matches Some(v) && lists_idents(v@, l0[i])) by {
            assert(l0[i] == lists[i]);
        }
        assert forall|i: int| 0 <= i < l0.len() implies (#[trigger] l0[i]).len() > 0 && whitelisted(
            l0[i],
        ) by {
            assert(l0[i] == lists[i]);
        }
        lemma_refilter(l0, a0);
        assert(is_list_attr(again[n], lists[n]));
        assert(lists[n].len() > 0 && whitelisted(lists[n]));
        match again.last() {
            Attribute::Derive(t) => {
                let v = derive_list_paths(derive_list_text(lists[n]))->0;
                assert(lists_idents(v@, lists[n]));
                lemma_kept_paths_of_idents(v@, lists[n]);
                assert(l0.push(lists[n]) =~= lists);
            },
            _ => {},
        }
    } else {
        assert(lists =~= Seq::<Seq<Seq<char>>>::empty());
    }
}

/// The rebuilt `derive` attributes for the helper structs.
pub open spec fn filtered_derive_texts(attrs: Seq<Attribute>) -> Seq<Seq<char>> {
    kept_derive_lists(attrs).map_values(|names: Seq<Seq<char>>| derive_attr_text(names))
}

/// Returns the whitelist of derives that are safe to mirror onto generated structs.
pub fn allowed_derives() -> (res: Vec<&'static str>)
    ensures
        res@.map_values(|s: &'static str| s@) == allowed_derive_names(),
{
    let mut v: Vec<&'static str> = Vec::new();
    v.push("Debug");
    v.push("Clone");
    v.push("Copy");
    v.push("PartialEq");
    v.push("Eq");
    v.push("PartialOrd");
    v.push("Ord");
    v.push("Hash");
    assert(v@.map_values(|s: &'static str| s@) =~= allowed_derive_names());
    v
}

/// Whether `name` is on the whitelist.
pub fn is_allowed_derive(name: &String) -> (res: bool)
    ensures
        res == allowed_derive_names().contains(name@),
{
    let allowed = allowed_derives();
    let n = allowed.len();
    let mut i: usize = 0;
    while i < n
        invariant
            i <= n,
            n == allowed@.len(),
            allowed@.map_values(|s: &'static str| s@) == allowed_derive_names(),
            forall|j: int| 0 <= j < i ==> allowed_derive_names()[j] != name@,
        decreases n - i,
    {
        let w = String::from_str(allowed[i]);
        assert(w@ == allowed_derive_names()[i as int]);
        if w.eq(name) {
            return true;
        }
        i = i + 1;
    }
    proof {
        if allowed_derive_names().contains(name@) {
            let k = choose|k: int| 0 <= k < allowed_derive_names().len() && allowed_derive_names()[k] == name@;
            assert(allowed_derive_names()[k] != name@);
        }
    }
    false
}

/// The whitelisted single identifiers of one `derive(...)` list, in order.
fn keep_paths(paths: &Vec<Option<String>>) -> (res: Vec<String>)
    ensures
        views(res@) == kept_paths(paths@),
{
    let mut out: Vec<String> = Vec::new();
    let n = paths.len();
    let mut i: usize = 0;
    while i < n
        invariant
            i <= n,
            n == paths@.len(),
            views(out@) == kept_paths(paths@.take(i as int)),
        decreases n - i,
    {
        let ghost before = out@;
        match &paths[i] {
            Some(w) => {
                if is_allowed_derive(w) {
                    out.push(w.clone());
                    assert(views(out@) =~= views(before).push(w@));
                }
            },
            None => {},
        }
        proof {
            assert(paths@.take(i + 1).drop_last() =~= paths@.take(i as int));
        }
        i = i + 1;
    }
    proof {
        assert(paths@.take(n as int) =~= paths@);
    }
    out
}

fn derive_attr(list: &String, names: Ghost<Seq<Seq<char>>>) -> (res: String)
    requires
        list@ == derive_list_text(names@),
    ensures
        res@ == derive_attr_text(names@),
{
    let mut out = String::from_str("#[derive(");
    out.append(list.as_str());
    out.append(")]");
    out
}

/// Every entry of a kept list is on the whitelist.
proof fn lemma_kept_whitelisted(paths: Seq<Option<String>>)
    ensures
        whitelisted(kept_paths(paths)),
{
    let kept = kept_paths(paths);
    assert forall|k: int| 0 <= k < kept.len() implies allowed_derive_names().contains(
        #[trigger] kept[k],
    ) by {
        assert(kept.contains(kept[k]));
        law_mirrored_derives_are_whitelisted(paths, kept[k]);
    }
}

/// Rebuilds the `derive` attributes of the input for the helper structs:
/// each `derive` list keeps its whitelisted single identifiers, lists that
/// keep nothing are dropped, and a `derive` attribute that is not a list of
/// paths is an error. Filtering the attributes that the rebuilt texts stand
/// for gives the same texts again.
pub fn filter_derive_attributes(attrs: &Vec<Attribute>) -> (res: Result<Vec<String>, ()>)
    ensures
        res is Err <==> has_malformed_derive(attrs@),
        res matches Ok(v) ==> views(v@) == filtered_derive_texts(attrs@),
        res is Ok ==> forall|again: Seq<Attribute>|
            #[trigger] rebuilt_attrs(again, kept_derive_lists(attrs@)) ==> {
                &&& !has_malformed_derive(again)
                &&& kept_derive_lists(again) == kept_derive_lists(attrs@)
                &&& filtered_derive_texts(again) == filtered_derive_texts(attrs@)
            },
{
    let mut out: Vec<String> = Vec::new();
    let n = attrs.len();
    let mut i: usize = 0;
    while i < n
        invariant
            i <= n,
            n == attrs@.len(),
            !has_malformed_derive(attrs@.take(i as int)),
            views(out@) == filtered_derive_texts(attrs@.take(i as int)),
            reads_back(kept_derive_lists(attrs@.take(i as int))),
            kept_shape(kept_derive_lists(attrs@.take(i as int))),
        decreases n - i,
    {
        let ghost before = out@;
        let ghost lists = kept_derive_lists(attrs@.take(i as int));
        proof {
            assert(attrs@.take(i + 1).drop_last() =~= attrs@.take(i as int));
        }
        match &attrs[i] {
            Attribute::Derive(tokens) => {
                match parse_derive_list(tokens.as_str()) {
                    Some(paths) => {
                        let kept = keep_paths(&paths);
                        if kept.len() > 0 {
                            let ghost names = views(kept@);
                            let list = join_strings(&kept, ", ");
                            proof {
                                lemma_kept_whitelisted(paths@);
                                assert(list@ == derive_list_text(names));
                            }
                            // The rebuilt list is read back, as the attribute
                            // built from it would be: syn gives the kept
                            // identifiers again, which is what makes a second
                            // filtering keep every list whole.
                            let _reread = parse_derive_list(list.as_str());
                            let text = derive_attr(&list, Ghost(names));
                            out.push(text);
                            proof {
                                assert(kept_derive_lists(attrs@.take(i + 1)) == lists.push(names));
                                assert(views(out@) =~= views(before).push(text@));
                                assert(filtered_derive_texts(attrs@.take(i + 1)) =~= filtered_derive_texts(
                                    attrs@.take(i as int),
                                ).push(derive_attr_text(names)));
                                let now = lists.push(names);
                                assert forall|k: int| 0 <= k < now.len() implies (derive_list_paths(
                                    derive_list_text(#[trigger] now[k]),
                                ) matches Some(v) && lists_idents(v@, now[k])) by {
                                    if k < lists.len() {
                                        assert(now[k] == lists[k]);
                                    }
                                }
                                assert forall|k: int| 0 <= k < now.len() implies (#[trigger] now[k]).len()
                                    > 0 && whitelisted(now[k]) by {
                                    if k < lists.len() {
                                        assert(now[k] == lists[k]);
                                    }
                                }
                            }
                        } else {
                            assert(kept_derive_lists(attrs@.take(i + 1)) == lists);
                            assert(filtered_derive_texts(attrs@.take(i + 1)) =~= filtered_derive_texts(
                                attrs@.take(i as int),
                            ));
                        }
                    },
                    None => {
                        assert(!derive_attr_ok(attrs@[i as int]));
                        return Err(());
                    },
                }
            },
            Attribute::DeriveNotList => {
                assert(!derive_attr_ok(attrs@[i as int]));
                return Err(());
            },
            Attribute::Other => {
                assert(kept_derive_lists(attrs@.take(i + 1)) == lists);
                assert(filtered_derive_texts(attrs@.take(i + 1)) =~= filtered_derive_texts(
                    attrs@.take(i as int),
                ));
            },
        }
        proof {
            assert forall|j: int| 0 <= j < i + 1 implies derive_attr_ok(#[trigger] attrs@.take(i + 1)[j]) by {
                if j < i {
                    assert(attrs@.take(i + 1)[j] == attrs@.take(i as int)[j]);
                }
            }
        }
        i = i + 1;
    }
    proof {
        assert(attrs@.take(n as int) =~= attrs@);
        let lists = kept_derive_lists(attrs@);
        assert forall|again: Seq<Attribute>| #[trigger] rebuilt_attrs(again, lists) implies {
            &&& !has_malformed_derive(again)
            &&& kept_derive_lists(again) == lists
            &&& filtered_derive_texts(again) == filtered_derive_texts(attrs@)
        } by {
            lemma_refilter(lists, again);
        }
    }
    Ok(out)
}

} // verus!
