//! Helpers for writing derive macros: a verified model of the attribute
//! option grammar (`name`, `name = value`, `name(value)`, `name(v1, v2)`),
//! together with the small code-generation elements built on top of it.

pub mod bridge;
pub mod core_ext;
pub mod delimited;
pub mod derive;
pub mod elements;
pub mod errors;
pub mod ext;
pub mod extract_fields;
pub mod field_opt;
pub mod meta;
pub mod parse_option;
pub mod parse_utils;
pub mod parse_wrapper;
pub mod tokens;
pub mod value_syntax;
