//! The decision logic behind the option-deriving code generators: how a
//! derive input's fields and their `attr_opts` attributes are read.

pub mod attr_options;
pub mod default_option;
pub mod field_opts;
pub mod fields;
pub mod parse_option_derive;
