use vstd::prelude::*;

use crate::errors::ParseError;
use crate::tokens::{group_contents, is_paren_group, is_punct_ch, Delim, TokenNode};

verus! {

/// Syntax used for providing a value.
#[derive(Copy, Clone, Eq, PartialEq, Structural, Debug)]
pub enum ValueSyntax {
    /// `= contents`
    Eq,
    /// `(contents)`
    Paren,
}

/// The syntax announced by the first token of `s`: `=` announces an
/// equals-style value, a parenthesised group announces a parenthesised one.
pub open spec fn spec_value_syntax(s: Seq<TokenNode>) -> Option<ValueSyntax> {
    if s.len() == 0 {
        None
    } else if is_punct_ch(s[0], '=') {
        Some(ValueSyntax::Eq)
    } else if is_paren_group(s[0]) {
        Some(ValueSyntax::Paren)
    } else {
        None
    }
}

/// What consuming the announcing token leaves: for `=` no inner group and
/// the rest of the sequence, for `(...)` the group contents and the rest.
pub open spec fn spec_parse_token(v: ValueSyntax, s: Seq<TokenNode>) -> Result<
    (Option<Seq<TokenNode>>, Seq<TokenNode>),
    Seq<char>,
> {
    match v {
        ValueSyntax::Eq => if s.len() > 0 && is_punct_ch(s[0], '=') {
            Ok((None, s.skip(1)))
        } else {
            Err("expected `=`"@)
        },
        ValueSyntax::Paren => if s.len() > 0 && is_paren_group(s[0]) {
            Ok((Some(group_contents(s[0])), s.skip(1)))
        } else {
            Err("expected parentheses"@)
        },
    }
}

/// The tokens that spell the value itself: the group contents for the
/// parenthesised syntax, everything after `=` for the equals syntax. A
/// token following the parenthesised group is rejected, as a whole-stream
/// parse leaves nothing behind.
pub open spec fn spec_parse_value(v: ValueSyntax, s: Seq<TokenNode>) -> Result<
    Seq<TokenNode>,
    Seq<char>,
> {
    match spec_parse_token(v, s) {
        Ok((inner, rest)) => match inner {
            Some(contents) => if rest.len() == 0 {
                Ok(contents)
            } else {
                Err("unexpected token"@)
            },
            None => Ok(rest),
        },
        Err(m) => Err(m),
    }
}

/// The view of an optional token vector.
pub open spec fn opt_tokens_view(o: Option<Vec<TokenNode>>) -> Option<Seq<TokenNode>> {
    match o {
        Some(v) => Some(v@),
        None => None,
    }
}

impl ValueSyntax {
    /// Returns `true` if the syntax is the equals style.
    pub fn is_eq(self) -> (r: bool)
        ensures
            r == (self is Eq),
    {
        matches!(self, ValueSyntax::Eq)
    }

    /// Returns `true` if the syntax is the parenthesised style.
    pub fn is_paren(self) -> (r: bool)
        ensures
            r == (self is Paren),
    {
        matches!(self, ValueSyntax::Paren)
    }

    /// Look at the first token of `tokens` without consuming it and decide
    /// which value syntax it announces, if any.
    pub fn from_tokens(tokens: &Vec<TokenNode>) -> (r: Option<ValueSyntax>)
        ensures
            r == spec_value_syntax(tokens@),
    {
        if tokens.len() == 0 {
            None
        } else if tokens[0].is_punct('=') {
            Some(ValueSyntax::Eq)
        } else if tokens[0].is_group(Delim::Paren) {
            Some(ValueSyntax::Paren)
        } else {
            None
        }
    }

    /// Consume the token that announces the resolved syntax. For the
    /// parenthesised syntax the group contents come back as well; either way
    /// the tokens after the announcing token follow.
    pub fn parse_token(self, tokens: Vec<TokenNode>) -> (r: Result<
        (Option<Vec<TokenNode>>, Vec<TokenNode>),
        ParseError,
    >)
        ensures
            (match r {
                Ok(p) => spec_parse_token(self, tokens@) == Ok::<_, Seq<char>>(
                    (opt_tokens_view(p.0), p.1@),
                ),
                Err(e) => spec_parse_token(self, tokens@) == Err::<
                    (Option<Seq<TokenNode>>, Seq<TokenNode>),
                    _,
                >(e@),
            }),
    {
        let mut tokens = tokens;
        match self {
            ValueSyntax::Eq => {
                if tokens.len() > 0 && tokens[0].is_punct('=') {
                    tokens.remove(0);
                    Ok((None, tokens))
                } else {
                    Err(ParseError::new("expected `=`"))
                }
            },
            ValueSyntax::Paren => {
                if tokens.len() > 0 && tokens[0].is_group(Delim::Paren) {
                    let first = tokens.remove(0);
                    match first {
                        TokenNode::Group { tokens: inner, .. } => Ok((Some(inner), tokens)),
                        _ => Err(ParseError::new("expected parentheses")),
                    }
                } else {
                    Err(ParseError::new("expected parentheses"))
                }
            },
        }
    }

    /// Consume the announcing token and hand back the tokens that spell the
    /// value: the group contents for the parenthesised syntax, the remainder
    /// for the equals syntax. A token following the parenthesised group is
    /// rejected.
    pub fn parse(self, tokens: Vec<TokenNode>) -> (r: Result<Vec<TokenNode>, ParseError>)
        ensures
            (match r {
                Ok(v) => spec_parse_value(self, tokens@) == Ok::<_, Seq<char>>(v@),
                Err(e) => spec_parse_value(self, tokens@) == Err::<Seq<TokenNode>, _>(e@),
            }),
    {
        match self.parse_token(tokens) {
            Ok((inner, rest)) => match inner {
                Some(contents) => if rest.len() == 0 {
                    Ok(contents)
                } else {
                    Err(ParseError::new("unexpected token"))
                },
                None => Ok(rest),
            },
            Err(e) => Err(e),
        }
    }
}

/// `Option<ValueSyntax>` extensions.
pub trait OptionExt: Sized {
    /// What `and_parse` must hand back, as a function of the tokens.
    spec fn spec_and_parse(self, s: Seq<TokenNode>) -> Result<Seq<TokenNode>, Seq<char>>;

    /// If a value syntax was resolved, take the value tokens it announces;
    /// otherwise the whole sequence already spells the value.
    fn and_parse(self, tokens: Vec<TokenNode>) -> (r: Result<Vec<TokenNode>, ParseError>)
        ensures
            (match r {
                Ok(v) => self.spec_and_parse(tokens@) == Ok::<_, Seq<char>>(v@),
                Err(e) => self.spec_and_parse(tokens@) == Err::<Seq<TokenNode>, _>(e@),
            }),
    ;
}

impl OptionExt for Option<ValueSyntax> {
    open spec fn spec_and_parse(self, s: Seq<TokenNode>) -> Result<Seq<TokenNode>, Seq<char>> {
        match self {
            Some(v) => spec_parse_value(v, s),
            None => Ok(s),
        }
    }

    fn and_parse(self, tokens: Vec<TokenNode>) -> (r: Result<Vec<TokenNode>, ParseError>) {
        match self {
            Some(v) => v.parse(tokens),
            None => Ok(tokens),
        }
    }
}

} // verus!
