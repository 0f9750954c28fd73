use crate::model::{variants_of, Data, DeriveInput, Fields, Variant};
use crate::naming::{as_method_name, as_variant_method_name, is_method_name, is_variant_method_name};
use vstd::prelude::*;

verus! {

/// A value of an enum described by a `DeriveInput`: the name of its variant
/// and the values of that variant's fields, in declaration order.
#[derive(Debug, PartialEq)]
pub struct EnumValue<V> {
    pub variant: String,
    pub fields: Vec<V>,
}

/// A named field borrowed by a struct-like variant's accessor.
#[derive(Debug, PartialEq)]
pub struct NamedRef<'v, V> {
    pub name: String,
    pub value: &'v V,
}

/// What a generated `as_*` accessor hands out on a match: `()` for a
/// variant without fields, one borrow for a single-field tuple variant, a
/// tuple of borrows for a tuple variant with several fields, and the helper
/// struct (its fields by name) for a struct-like variant.
#[derive(Debug, PartialEq)]
pub enum Borrowed<'v, V> {
    Unit,
    One(&'v V),
    Tuple(Vec<&'v V>),
    Named(Vec<NamedRef<'v, V>>),
}

/// The number of fields of a variant.
pub open spec fn field_count(fields: Fields) -> nat {
    match fields {
        Fields::Unit => 0,
        Fields::Unnamed(tys) => tys@.len(),
        Fields::Named(fs) => fs@.len(),
    }
}

/// No two variants share a name, as in any enum that compiles.
pub open spec fn variant_names_distinct(vs: Seq<Variant>) -> bool {
    forall|i: int, j: int|
        0 <= i < vs.len() && 0 <= j < vs.len() && i != j ==> #[trigger] vs[i].name@ != #[trigger] vs[j].name@
}

/// `value` is a value of the enum `input`: it names one of its variants and
/// has as many fields as that variant.
pub open spec fn is_value_of<V>(input: DeriveInput, value: EnumValue<V>) -> bool {
    match input.data {
        Data::Enum(vs) => {
            &&& variant_names_distinct(vs@)
            &&& exists|i: int|
                0 <= i < vs@.len() && #[trigger] vs@[i].name@ == value.variant@ && field_count(
                    vs@[i].fields,
                ) == value.fields@.len()
        },
        _ => false,
    }
}

/// `i` is the first variant that satisfies `p`.
pub open spec fn first_with(vs: Seq<Variant>, p: spec_fn(Variant) -> bool, i: int) -> bool {
    &&& 0 <= i < vs.len()
    &&& p(vs[i])
    &&& forall|j: int| 0 <= j < i ==> !p(#[trigger] vs[j])
}

/// The index of the first variant that satisfies `p`, if any.
pub open spec fn first_index(vs: Seq<Variant>, p: spec_fn(Variant) -> bool) -> Option<int> {
    if exists|i: int| first_with(vs, p, i) {
        Some(choose|i: int| first_with(vs, p, i))
    } else {
        None
    }
}

/// There is at most one first variant that satisfies `p`.
pub proof fn lemma_first_with_unique(vs: Seq<Variant>, p: spec_fn(Variant) -> bool, i: int, j: int)
    requires
        first_with(vs, p, i),
        first_with(vs, p, j),
    ensures
        i == j,
{
    if i < j {
        assert(!p(vs[i]));
    } else if j < i {
        assert(!p(vs[j]));
    }
}

/// When `i` is the first variant that satisfies `p`, `first_index` finds it.
pub proof fn lemma_first_index(vs: Seq<Variant>, p: spec_fn(Variant) -> bool, i: int)
    requires
        first_with(vs, p, i),
    ensures
        first_index(vs, p) == Some(i),
{
    let k = choose|k: int| first_with(vs, p, k);
    lemma_first_with_unique(vs, p, i, k);
}

/// Selects the variant whose `is_*` method is named `method`.
pub open spec fn is_named(method: Seq<char>) -> spec_fn(Variant) -> bool {
    |v: Variant| is_method_name(v.name@) == method
}

/// Selects the variant whose `as_*` method is named `method`.
pub open spec fn as_named(method: Seq<char>) -> spec_fn(Variant) -> bool {
    |v: Variant| as_method_name(v.name@, false) == method
}

/// Whether the variant has `as_*_mut` accessors: unit and tuple variants do.
pub open spec fn has_mut_accessor(v: Variant) -> bool {
    !(v.fields is Named)
}

/// Selects the variant whose `as_*_mut` method is named `method`.
pub open spec fn as_mut_named(method: Seq<char>) -> spec_fn(Variant) -> bool {
    |v: Variant| has_mut_accessor(v) && as_method_name(v.name@, true) == method
}

/// What the generated method `method` among the `is_*` methods returns on
/// `value`: `None` when no such method is generated; else whether `value`
/// is of the method's variant.
pub open spec fn generated_is<V>(input: DeriveInput, method: Seq<char>, value: EnumValue<V>) -> Option<bool> {
    match first_index(variants_of(input), is_named(method)) {
        Some(i) => Some(value.variant@ == variants_of(input)[i].name@),
        None => None,
    }
}

/// `b` is what the accessor of a variant with `fields` hands out for a value
/// whose fields hold `vals`.
pub open spec fn borrow_matches<V>(b: Borrowed<V>, fields: Fields, vals: Seq<V>) -> bool {
    match fields {
        Fields::Unit => b is Unit,
        Fields::Unnamed(tys) => if tys@.len() == 0 {
            b is Unit
        } else if tys@.len() == 1 {
            b matches Borrowed::One(r) && *r == vals[0]
        } else {
            b matches Borrowed::Tuple(rs) && rs@.len() == vals.len() && forall|j: int|
                0 <= j < vals.len() ==> *#[trigger] rs@[j] == vals[j]
        },
        Fields::Named(fs) => b matches Borrowed::Named(ns) && ns@.len() == fs@.len() && forall|j: int|
            0 <= j < fs@.len() ==> (#[trigger] ns@[j]).name@ == fs@[j].name@ && *ns@[j].value == vals[j],
    }
}

/// Calls the generated method `method` among the `is_*` methods of `input`
/// on `value`: `None` when no such method is generated, else whether
/// `value` is of the method's variant.
pub fn eval_is<V>(input: &DeriveInput, method: &str, value: &EnumValue<V>) -> (res: Option<bool>)
    ensures
        res == generated_is(*input, method@, *value),
{
    let vs = match &input.data {
        Data::Enum(vs) => vs,
        _ => return None,
    };
    let ghost p = is_named(method@);
    let wanted = String::from_str(method);
    let n = vs.len();
    let mut i: usize = 0;
    while i < n
        invariant
            i <= n,
            n == vs@.len(),
            variants_of(*input) == vs@,
            p == is_named(method@),
            wanted@ == method@,
            forall|j: int| 0 <= j < i ==> !p(#[trigger] vs@[j]),
        decreases n - i,
    {
        let name = is_variant_method_name(vs[i].name.as_str());
        if name.eq(&wanted) {
            let hit = value.variant.eq(&vs[i].name);
            proof {
                lemma_first_index(vs@, p, i as int);
            }
            return Some(hit);
        }
        i = i + 1;
    }
    proof {
        assert(!exists|k: int| first_with(vs@, p, k));
    }
    None
}

fn borrow_fields<'v, V>(fields: &Fields, vals: &'v Vec<V>) -> (res: Borrowed<'v, V>)
    requires
        field_count(*fields) == vals@.len(),
    ensures
        borrow_matches(res, *fields, vals@),
{
    match fields {
        Fields::Unit => Borrowed::Unit,
        Fields::Unnamed(tys) => {
            let n = tys.len();
            if n == 0 {
                Borrowed::Unit
            } else if n == 1 {
                Borrowed::One(&vals[0])
            } else {
                let mut refs: Vec<&'v V> = Vec::new();
                let mut i: usize = 0;
                while i < n
                    invariant
                        i <= n,
                        n == vals@.len(),
                        refs@.len() == i,
                        forall|j: int| 0 <= j < i ==> *#[trigger] refs@[j] == vals@[j],
                    decreases n - i,
                {
                    refs.push(&vals[i]);
                    i = i + 1;
                }
                Borrowed::Tuple(refs)
            }
        },
        Fields::Named(fs) => {
            let n = fs.len();
            let mut named: Vec<NamedRef<'v, V>> = Vec::new();
            let mut i: usize = 0;
            while i < n
                invariant
                    i <= n,
                    n == vals@.len(),
                    n == fs@.len(),
                    named@.len() == i,
                    forall|j: int|
                        0 <= j < i ==> (#[trigger] named@[j]).name@ == fs@[j].name@ && *named@[j].value
                            == vals@[j],
                decreases n - i,
            {
                named.push(NamedRef { name: fs[i].name.clone(), value: &vals[i] });
                i = i + 1;
            }
            Borrowed::Named(named)
        },
    }
}

/// Calls the generated method `method` among the `as_*` methods of `input`
/// on `value`: `None` when no such method is generated; else `Some(None)`
/// when `value` is of another variant, and `Some(Some(b))` with the borrows
/// of `value`'s fields when it is of the method's variant.
pub fn eval_as<'v, V>(input: &DeriveInput, method: &str, value: &'v EnumValue<V>) -> (res: Option<
    Option<Borrowed<'v, V>>,
>)
    requires
        is_value_of(*input, *value),
    ensures
        match first_index(variants_of(*input), as_named(method@)) {
            None => res is None,
            Some(i) => res matches Some(r) && (r is Some <==> value.variant@ == variants_of(
                *input,
            )[i].name@) && (r matches Some(b) ==> borrow_matches(
                b,
                variants_of(*input)[i].fields,
                value.fields@,
            )),
        },
{
    let vs = match &input.data {
        Data::Enum(vs) => vs,
        _ => return None,
    };
    let ghost p = as_named(method@);
    let wanted = String::from_str(method);
    let n = vs.len();
    let mut i: usize = 0;
    while i < n
        invariant
            i <= n,
            n == vs@.len(),
            input.data == Data::Enum(*vs),
            variants_of(*input) == vs@,
            p == as_named(method@),
            wanted@ == method@,
            forall|j: int| 0 <= j < i ==> !p(#[trigger] vs@[j]),
            is_value_of(*input, *value),
        decreases n - i,
    {
        let name = as_variant_method_name(vs[i].name.as_str(), false);
        if name.eq(&wanted) {
            proof {
                lemma_first_index(vs@, p, i as int);
            }
            if value.variant.eq(&vs[i].name) {
                proof {
                    let k = choose|k: int|
                        0 <= k < vs@.len() && #[trigger] vs@[k].name@ == value.variant@ && field_count(
                            vs@[k].fields,
                        ) == value.fields@.len();
                    assert(vs@[k].name@ == vs@[i as int].name@);
                }
                let b = borrow_fields(&vs[i].fields, &value.fields);
                return Some(Some(b));
            }
            return Some(None);
        }
        i = i + 1;
    }
    proof {
        assert(!exists|k: int| first_with(vs@, p, k));
    }
    None
}

/// Calls the generated method `method` among the `as_*_mut` methods of
/// `input` on `value`: `None` when no such method is generated; else
/// `Some(None)` when `value` is of another variant, and `Some(Some(f))` with
/// a mutable borrow of exactly `value`'s fields when it is of the method's
/// variant. The borrow is a slice, as the generated tuple of `&mut` fields
/// is: it can change what the fields hold, never how many there are.
/// Whatever is written through it is what the fields hold afterwards; the
/// variant never changes.
pub fn eval_as_mut<'v, V>(input: &DeriveInput, method: &str, value: &'v mut EnumValue<V>) -> (res:
    Option<Option<&'v mut [V]>>)
    requires
        is_value_of(*input, *old(value)),
    ensures
        match first_index(variants_of(*input), as_mut_named(method@)) {
            None => res is None,
            Some(i) => res matches Some(r) && (r is Some <==> old(value).variant@ == variants_of(
                *input,
            )[i].name@),
        },
        final(value).variant == old(value).variant,
        match res {
            Some(Some(f)) => f@ == old(value).fields@ && final(value).fields@ == final(f)@,
            _ => final(value).fields == old(value).fields,
        },
{
    let vs = match &input.data {
        Data::Enum(vs) => vs,
        _ => return None,
    };
    let ghost p = as_mut_named(method@);
    let wanted = String::from_str(method);
    let n = vs.len();
    let mut i: usize = 0;
    while i < n
        invariant
            i <= n,
            n == vs@.len(),
            variants_of(*input) == vs@,
            p == as_mut_named(method@),
            wanted@ == method@,
            forall|j: int| 0 <= j < i ==> !p(#[trigger] vs@[j]),
            *value == *old(value),
        decreases n - i,
    {
        let named = match &vs[i].fields {
            Fields::Named(_) => true,
            _ => false,
        };
        if !named {
            let name = as_variant_method_name(vs[i].name.as_str(), true);
            if name.eq(&wanted) {
                proof {
                    lemma_first_index(vs@, p, i as int);
                }
                if value.variant.eq(&vs[i].name) {
                    return Some(Some(value.fields.as_mut_slice()));
                }
                return Some(None);
            }
        }
        proof {
            assert(!p(vs@[i as int]));
        }
        i = i + 1;
    }
    proof {
        assert(!exists|k: int| first_with(vs@, p, k));
    }
    None
}

} // verus!
