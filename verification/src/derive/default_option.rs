use vstd::prelude::*;

use crate::errors::ParseError;
use crate::meta::{spec_parse_path, AttrPath};
use crate::parse_option::ParseOption;
use crate::tokens::{is_ident, is_ident_text, TokenNode};
use crate::value_syntax::{spec_parse_value, spec_value_syntax, ValueSyntax};

verus! {

/// How a field's default value is made.
#[derive(Debug, PartialEq, Eq)]
pub enum DefaultOption {
    /// `default`: construct the standard default.
    Implicit,
    /// `default = true` or `default = false`: `false` makes the option
    /// required.
    Explicit(bool),
    /// `default = some_module::some_fn`: call this function.
    Path(AttrPath),
}

/// An explicit default value is exactly a boolean literal, or exactly a
/// path opened by an identifier; a leading path separator is never taken
/// as a path here, as the lookahead only sees the separator's second
/// half.
pub open spec fn spec_explicit_ok(v: Seq<TokenNode>) -> bool {
    if v.len() > 0 && (is_ident_text(v[0], "true"@) || is_ident_text(v[0], "false"@)) {
        v.len() == 1
    } else if v.len() > 0 && is_ident(v[0]) {
        spec_parse_path(v) matches Ok((_, rest)) && rest.len() == 0
    } else {
        false
    }
}

/// The message for a rejected explicit default value.
pub open spec fn spec_explicit_err(v: Seq<TokenNode>) -> Seq<char> {
    if v.len() > 0 && (is_ident_text(v[0], "true"@) || is_ident_text(v[0], "false"@)) {
        if v.len() == 1 {
            Seq::empty()
        } else {
            "unexpected token"@
        }
    } else if v.len() > 0 && is_ident(v[0]) {
        match spec_parse_path(v) {
            Ok((_, rest)) => if rest.len() == 0 {
                Seq::empty()
            } else {
                "unexpected token"@
            },
            Err(m) => m,
        }
    } else {
        "Expected boolean or path"@
    }
}

/// `d` is the explicit default that the value tokens spell exactly.
pub open spec fn spec_explicit_matches(v: Seq<TokenNode>, d: DefaultOption) -> bool {
    if v.len() > 0 && is_ident_text(v[0], "true"@) {
        v.len() == 1 && d == DefaultOption::Explicit(true)
    } else if v.len() > 0 && is_ident_text(v[0], "false"@) {
        v.len() == 1 && d == DefaultOption::Explicit(false)
    } else if v.len() > 0 && is_ident(v[0]) {
        d matches DefaultOption::Path(p) && (spec_parse_path(v) matches Ok((pv, rest))
            && rest.len() == 0 && p@ == pv)
    } else {
        false
    }
}

/// Parse an explicit default value.
fn parse_explicit(v: Vec<TokenNode>) -> (r: Result<DefaultOption, ParseError>)
    ensures
        r is Ok <==> spec_explicit_ok(v@),
        (match r {
            Ok(d) => spec_explicit_matches(v@, d),
            Err(e) => e@ == spec_explicit_err(v@),
        }),
{
    if v.len() > 0 && (v[0].is_ident_named("true") || v[0].is_ident_named("false")) {
        if v.len() == 1 {
            Ok(DefaultOption::Explicit(v[0].is_ident_named("true")))
        } else {
            Err(ParseError::new("unexpected token"))
        }
    } else if v.len() > 0 && v[0].is_ident_node() {
        match crate::meta::parse_path(v) {
            Ok((path, rest)) => if rest.len() == 0 {
                Ok(DefaultOption::Path(path))
            } else {
                Err(ParseError::new("unexpected token"))
            },
            Err(e) => Err(e),
        }
    } else {
        Err(ParseError::new("Expected boolean or path"))
    }
}

impl ParseOption for DefaultOption {
    open spec fn stream_ok(s: Seq<TokenNode>) -> bool {
        match spec_value_syntax(s) {
            None => s.len() == 0,
            Some(v) => match spec_parse_value(v, s) {
                Ok(value) => spec_explicit_ok(value),
                Err(_) => false,
            },
        }
    }

    open spec fn stream_err(s: Seq<TokenNode>) -> Seq<char> {
        match spec_value_syntax(s) {
            None => if s.len() == 0 {
                Seq::empty()
            } else {
                "unexpected token"@
            },
            Some(v) => match spec_parse_value(v, s) {
                Ok(value) => spec_explicit_err(value),
                Err(m) => m,
            },
        }
    }

    open spec fn stream_value(s: Seq<TokenNode>, d: Self) -> bool {
        match spec_value_syntax(s) {
            None => s.len() == 0 && d == DefaultOption::Implicit,
            Some(v) => (match spec_parse_value(v, s) {
                Ok(value) => spec_explicit_matches(value, d),
                Err(_) => false,
            }),
        }
    }

    fn from_stream(tokens: Vec<TokenNode>) -> (r: Result<Self, ParseError>) {
        match ValueSyntax::from_tokens(&tokens) {
            None => {
                if tokens.len() == 0 {
                    Ok(DefaultOption::Implicit)
                } else {
                    Err(ParseError::new("unexpected token"))
                }
            },
            Some(syntax) => match syntax.parse(tokens) {
                Ok(value) => parse_explicit(value),
                Err(e) => Err(e),
            },
        }
    }
}

impl DefaultOption {
    /// Does this default mark the option as required?
    pub fn is_required_marker(&self) -> (r: bool)
        ensures
            r == (*self == DefaultOption::Explicit(false)),
    {
        matches!(self, DefaultOption::Explicit(false))
    }
}

} // verus!
