use vstd::prelude::*;

use crate::errors::ParseError;
use crate::tokens::{is_ident_text, TokenNode};
use crate::value_syntax::{spec_value_syntax, OptionExt, ValueSyntax};

verus! {

/// The boolean that a value token run spells: exactly the bare word
/// `true` or `false`. A run that starts with another token is rejected
/// the way a boolean literal parse would reject it; a token after the
/// boolean is rejected the way a whole-stream parse rejects a leftover.
pub open spec fn spec_lit_bool_value(value: Seq<TokenNode>) -> Result<bool, Seq<char>> {
    if value.len() > 0 && (is_ident_text(value[0], "true"@) || is_ident_text(value[0], "false"@)) {
        if value.len() == 1 {
            Ok(is_ident_text(value[0], "true"@))
        } else {
            Err("unexpected token"@)
        }
    } else {
        Err("expected boolean literal"@)
    }
}

/// The boolean attribute grammar: an empty run (the bare attribute name)
/// means `true`; otherwise the announced value syntax must supply exactly
/// a boolean literal. A non-empty run that announces no value syntax is
/// rejected as a leftover, as a whole-stream parse leaves nothing behind.
pub open spec fn spec_bool_attr(s: Seq<TokenNode>) -> Result<bool, Seq<char>> {
    match spec_value_syntax(s) {
        None => if s.len() == 0 {
            Ok(true)
        } else {
            Err("unexpected token"@)
        },
        Some(v) => match crate::value_syntax::spec_parse_value(v, s) {
            Ok(value) => spec_lit_bool_value(value),
            Err(m) => Err(m),
        },
    }
}

/// The valued attribute grammar: the tokens that spell the value, under
/// whichever value syntax the run announces.
pub open spec fn spec_valued_attr(s: Seq<TokenNode>) -> Result<Seq<TokenNode>, Seq<char>> {
    crate::value_syntax::OptionExt::spec_and_parse(spec_value_syntax(s), s)
}

/// Parse a value token run as exactly one boolean literal.
pub fn parse_lit_bool_value(value: &Vec<TokenNode>) -> (r: Result<bool, ParseError>)
    ensures
        (match r {
            Ok(b) => spec_lit_bool_value(value@) == Ok::<_, Seq<char>>(b),
            Err(e) => spec_lit_bool_value(value@) == Err::<bool, _>(e@),
        }),
{
    if value.len() > 0 && (value[0].is_ident_named("true") || value[0].is_ident_named("false")) {
        if value.len() == 1 {
            Ok(value[0].is_ident_named("true"))
        } else {
            Err(ParseError::new("unexpected token"))
        }
    } else {
        Err(ParseError::new("expected boolean literal"))
    }
}

/// Parse a boolean attribute.
///
/// | Value             | Result  |
/// | ----------------- | ------- |
/// | `my_attr`         | `true`  |
/// | `my_attr(true)`   | `true`  |
/// | `my_attr(false)`  | `false` |
/// | `my_attr = true`  | `true`  |
/// | `my_attr = false` | `false` |
pub fn parse_bool_attr(tokens: Vec<TokenNode>) -> (r: Result<bool, ParseError>)
    ensures
        (match r {
            Ok(b) => spec_bool_attr(tokens@) == Ok::<_, Seq<char>>(b),
            Err(e) => spec_bool_attr(tokens@) == Err::<bool, _>(e@),
        }),
{
    match ValueSyntax::from_tokens(&tokens) {
        Some(syntax) => match syntax.parse(tokens) {
            Ok(value) => parse_lit_bool_value(&value),
            Err(e) => Err(e),
        },
        None => {
            if tokens.len() == 0 {
                Ok(true)
            } else {
                Err(ParseError::new("unexpected token"))
            }
        },
    }
}

/// Parse a valued attribute: hand back the tokens that spell the value,
/// whether it was given as `= value` or as `(value)`.
pub fn parse_valued_attr(tokens: Vec<TokenNode>) -> (r: Result<Vec<TokenNode>, ParseError>)
    ensures
        (match r {
            Ok(v) => spec_valued_attr(tokens@) == Ok::<_, Seq<char>>(v@),
            Err(e) => spec_valued_attr(tokens@) == Err::<Seq<TokenNode>, _>(e@),
        }),
{
    let syntax = ValueSyntax::from_tokens(&tokens);
    syntax.and_parse(tokens)
}

} // verus!
