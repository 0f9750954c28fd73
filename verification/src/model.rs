use vstd::prelude::*;

verus! {

/// One generic parameter of the enum, as written in its declaration.
///
/// `attrs` holds the parameter's outer attributes, each as written
/// (`#[may_dangle]`). Names are given as written: a lifetime's name includes
/// its leading quote (`'a`). An empty `bounds` means that the parameter has
/// no bounds.
#[derive(Debug, Clone, PartialEq, Eq)]
pub enum GenericParam {
    Lifetime { attrs: Vec<String>, name: String, bounds: String },
    Type { attrs: Vec<String>, name: String, bounds: String, default: Option<String> },
    Const { attrs: Vec<String>, name: String, ty: String, default: Option<String> },
}

/// The generic parameters of the enum, in declaration order, and its
/// `where` clause (the whole clause, keyword included) if it has a non-empty one.
#[derive(Debug, Clone, PartialEq, Eq)]
pub struct Generics {
    pub params: Vec<GenericParam>,
    pub where_clause: Option<String>,
}

/// A named field of a struct-like variant: its outer attributes, name and type.
#[derive(Debug, Clone, PartialEq, Eq)]
pub struct NamedField {
    pub attrs: Vec<String>,
    pub name: String,
    pub ty: String,
}

/// The fields of a variant: none, positional (their types), or named.
#[derive(Debug, Clone, PartialEq, Eq)]
pub enum Fields {
    Unit,
    Unnamed(Vec<String>),
    Named(Vec<NamedField>),
}

/// A variant of the enum.
#[derive(Debug, Clone, PartialEq, Eq)]
pub struct Variant {
    pub name: String,
    pub fields: Fields,
}

/// An outer attribute of the input item, as far as the accessors care.
///
/// `Derive` is a `#[derive(...)]` with a parenthesised list; it holds the
/// token text inside the parentheses. `DeriveNotList` is a `derive`
/// attribute of another form. Every other attribute is `Other`.
#[derive(Debug, Clone, PartialEq, Eq)]
pub enum Attribute {
    Derive(String),
    DeriveNotList,
    Other,
}

/// The body of the input item.
#[derive(Debug, Clone, PartialEq, Eq)]
pub enum Data {
    Enum(Vec<Variant>),
    Struct,
    Union,
}

/// The item that a derive is applied to.
#[derive(Debug, Clone, PartialEq, Eq)]
pub struct DeriveInput {
    pub attrs: Vec<Attribute>,
    pub vis: String,
    pub ident: String,
    pub generics: Generics,
    pub data: Data,
}

/// The variants of the input (none for an input that is not an enum).
pub open spec fn variants_of(input: DeriveInput) -> Seq<Variant> {
    match input.data {
        Data::Enum(vs) => vs@,
        _ => Seq::empty(),
    }
}

/// The variants of the input when it is an enum, `None` otherwise.
pub fn enum_data(input: &DeriveInput) -> (res: Option<&Vec<Variant>>)
    ensures
        match input.data {
            Data::Enum(vs) => res matches Some(r) && *r == vs,
            _ => res is None,
        },
{
    match &input.data {
        Data::Enum(vs) => Some(vs),
        _ => None,
    }
}

} // verus!
