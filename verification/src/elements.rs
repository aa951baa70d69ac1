//! Tokenisable code-generation elements.

pub mod attributed;
pub mod generic_impl;
pub mod impl_for;
pub mod module_prefix;
pub mod simple_attr;
pub mod to_tokens;
