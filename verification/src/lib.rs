//! Variant accessors for enums.
//!
//! The library takes a plain description of an enum definition and computes
//! the source text that the `EnumIsVariant` and `EnumAsVariant` derives emit:
//! `is_<variant>` predicates, `as_<variant>` / `as_<variant>_mut` borrowing
//! accessors and, for struct-like variants, helper structs of borrowed
//! fields. It also models what those generated methods return on a value of
//! the enum, and proves how the two relate.
mod as_variant;
mod derives;
mod generics;
mod is_variant;
mod laws;
mod model;
mod naming;
mod parse;
mod semantics;
mod shape_laws;
mod text;

pub use as_variant::{derive_enum_as_variant, render_enum_as_variant};
pub use derives::{
    allowed_derives, derive_list_text, filter_derive_attributes, is_allowed_derive, names_ident,
};
pub use generics::{
    generics_args_with_a, generics_with_leading_a, helper_lifetime, impl_generics, impl_header,
    lemma_helper_lifetime_fresh, type_generics, where_clause_tokens,
};
pub use is_variant::{derive_enum_is_variant, render_enum_is_variant};
pub use laws::{
    law_accessors_agree_with_is, law_exactly_one_is_method_holds,
    law_is_method_holds_exactly_on_its_variant, law_mirrored_derives_are_whitelisted,
    law_as_variant_succeeds_on_enums,
    law_is_variant_succeeds_on_enums, law_no_mut_accessor_for_named_variants,
    law_non_enums_are_refused, snake_names_distinct,
};
pub use parse::{
    expand_enum_as_variant, expand_enum_is_variant, lemma_descriptions_agree, parse_derive_input,
    BodySyntax, FieldsSyntax, ItemSyntax, MetaSyntax, ParamSyntax, VariantSyntax,
};
pub use model::{
    enum_data, variants_of, Attribute, Data, DeriveInput, Fields, GenericParam, Generics, NamedField, Variant,
};
pub use naming::{
    as_method_name, as_method_name_from_snake, as_name_from_snake, as_variant_method_name,
    helper_struct_ident, helper_struct_name, is_method_name, is_method_name_from_snake,
    is_name_from_snake, is_variant_method_name, snake_case, snake_names, variant_snake_names,
};
pub use semantics::{
    eval_as, eval_as_mut, eval_is, generated_is, is_value_of, Borrowed, EnumValue, NamedRef,
};
pub use shape_laws::{
    law_impl_generics_are_declarations_without_defaults, law_impl_generics_ignore_defaults,
    law_reading_keeps_field_kinds,
    law_tuple_accessors_return_fields_in_order, law_wildcard_has_one_blank_per_field,
};
pub use text::{concat_strings, concat_text, decimal, decimal_string, join, join_strings, views};
