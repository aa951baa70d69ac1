use vstd::prelude::*;

use crate::errors::ParseError;
use crate::ext::spec_bool_attr;
use crate::meta::{attr_is_named, Attr, AttrMetaKind, AttrPath};
use crate::tokens::TokenNode;

verus! {

/// Makes a type decodable from an option value token stream.
pub trait ParseOption: Sized {
    /// Which streams this type accepts.
    spec fn stream_ok(s: Seq<TokenNode>) -> bool;

    /// The message reported for a rejected stream.
    spec fn stream_err(s: Seq<TokenNode>) -> Seq<char>;

    /// `v` is the value that the stream `s` spells.
    spec fn stream_value(s: Seq<TokenNode>, v: Self) -> bool;

    /// Decode a value of this type from an option value token stream.
    fn from_stream(tokens: Vec<TokenNode>) -> (r: Result<Self, ParseError>)
        ensures
            r is Ok <==> Self::stream_ok(tokens@),
            (match r {
                Ok(v) => Self::stream_value(tokens@, v),
                Err(e) => e@ == Self::stream_err(tokens@),
            }),
    ;
}

/// Construct this type from the expression tokens of a `name = value`
/// option.
pub trait FromExpr: Sized {
    /// Which expression token runs this type accepts.
    spec fn expr_ok(e: Seq<TokenNode>) -> bool;

    /// The message reported for a rejected expression.
    spec fn expr_err(e: Seq<TokenNode>) -> Seq<char>;

    /// `v` is the value that the expression `e` spells.
    spec fn expr_value(e: Seq<TokenNode>, v: Self) -> bool;

    /// Whether a bare option name makes a value of this type.
    spec fn has_boolean() -> bool;

    /// `v` is the value a bare option name makes.
    spec fn boolean_value(v: Self) -> bool;

    /// Construct from expression tokens.
    fn from_expr(expr: Vec<TokenNode>) -> (r: Result<Self, ParseError>)
        ensures
            r is Ok <==> Self::expr_ok(expr@),
            (match r {
                Ok(v) => Self::expr_value(expr@, v),
                Err(e) => e@ == Self::expr_err(expr@),
            }),
    ;

    /// The positive value made from a bare option name, for types that have
    /// one.
    fn boolean() -> (r: Option<Self>)
        ensures
            r is Some <==> Self::has_boolean(),
            (match r {
                Some(v) => Self::boolean_value(v),
                None => true,
            }),
    ;
}

impl ParseOption for bool {
    open spec fn stream_ok(s: Seq<TokenNode>) -> bool {
        spec_bool_attr(s) is Ok
    }

    open spec fn stream_err(s: Seq<TokenNode>) -> Seq<char> {
        spec_bool_attr(s)->Err_0
    }

    open spec fn stream_value(s: Seq<TokenNode>, v: bool) -> bool {
        spec_bool_attr(s) == Ok::<_, Seq<char>>(v)
    }

    fn from_stream(tokens: Vec<TokenNode>) -> (r: Result<Self, ParseError>) {
        crate::ext::parse_bool_attr(tokens)
    }
}

impl FromExpr for bool {
    open spec fn expr_ok(e: Seq<TokenNode>) -> bool {
        crate::ext::spec_lit_bool_value(e) is Ok
    }

    open spec fn expr_err(e: Seq<TokenNode>) -> Seq<char> {
        if crate::ext::spec_lit_bool_value(e) is Ok {
            Seq::empty()
        } else if e.len() == 1 && e[0] is Lit {
            "Incompatible literal"@
        } else {
            "Incompatible expression"@
        }
    }

    open spec fn expr_value(e: Seq<TokenNode>, v: bool) -> bool {
        crate::ext::spec_lit_bool_value(e) == Ok::<_, Seq<char>>(v)
    }

    open spec fn has_boolean() -> bool {
        true
    }

    open spec fn boolean_value(v: bool) -> bool {
        v == true
    }

    fn from_expr(expr: Vec<TokenNode>) -> (r: Result<Self, ParseError>) {
        match crate::ext::parse_lit_bool_value(&expr) {
            Ok(b) => Ok(b),
            Err(_) => {
                if expr.len() == 1 && expr[0].is_lit_node() {
                    Err(ParseError::new("Incompatible literal"))
                } else {
                    Err(ParseError::new("Incompatible expression"))
                }
            },
        }
    }

    fn boolean() -> (r: Option<Self>) {
        Some(true)
    }
}

impl FromExpr for Vec<TokenNode> {
    open spec fn expr_ok(e: Seq<TokenNode>) -> bool {
        true
    }

    open spec fn expr_err(e: Seq<TokenNode>) -> Seq<char> {
        Seq::empty()
    }

    open spec fn expr_value(e: Seq<TokenNode>, v: Self) -> bool {
        v@ == e
    }

    open spec fn has_boolean() -> bool {
        false
    }

    open spec fn boolean_value(v: Self) -> bool {
        false
    }

    fn from_expr(expr: Vec<TokenNode>) -> (r: Result<Self, ParseError>) {
        Ok(expr)
    }

    fn boolean() -> (r: Option<Self>) {
        None
    }
}

impl<T: ParseOption> ParseOption for Option<T> {
    open spec fn stream_ok(s: Seq<TokenNode>) -> bool {
        T::stream_ok(s)
    }

    open spec fn stream_err(s: Seq<TokenNode>) -> Seq<char> {
        T::stream_err(s)
    }

    open spec fn stream_value(s: Seq<TokenNode>, v: Self) -> bool {
        v matches Some(inner) && T::stream_value(s, inner)
    }

    fn from_stream(tokens: Vec<TokenNode>) -> (r: Result<Self, ParseError>) {
        match T::from_stream(tokens) {
            Ok(v) => Ok(Some(v)),
            Err(e) => Err(e),
        }
    }
}

impl<T: FromExpr> FromExpr for Option<T> {
    open spec fn expr_ok(e: Seq<TokenNode>) -> bool {
        T::expr_ok(e)
    }

    open spec fn expr_err(e: Seq<TokenNode>) -> Seq<char> {
        T::expr_err(e)
    }

    open spec fn expr_value(e: Seq<TokenNode>, v: Self) -> bool {
        v matches Some(inner) && T::expr_value(e, inner)
    }

    open spec fn has_boolean() -> bool {
        true
    }

    open spec fn boolean_value(v: Self) -> bool {
        match v {
            Some(inner) => T::has_boolean() && T::boolean_value(inner),
            None => !T::has_boolean(),
        }
    }

    fn from_expr(expr: Vec<TokenNode>) -> (r: Result<Self, ParseError>) {
        match T::from_expr(expr) {
            Ok(v) => Ok(Some(v)),
            Err(e) => Err(e),
        }
    }

    fn boolean() -> (r: Option<Self>) {
        Some(T::boolean())
    }
}

impl<T: ParseOption> ParseOption for Box<T> {
    open spec fn stream_ok(s: Seq<TokenNode>) -> bool {
        T::stream_ok(s)
    }

    open spec fn stream_err(s: Seq<TokenNode>) -> Seq<char> {
        T::stream_err(s)
    }

    open spec fn stream_value(s: Seq<TokenNode>, v: Self) -> bool {
        T::stream_value(s, *v)
    }

    fn from_stream(tokens: Vec<TokenNode>) -> (r: Result<Self, ParseError>) {
        match T::from_stream(tokens) {
            Ok(v) => Ok(Box::new(v)),
            Err(e) => Err(e),
        }
    }
}

impl<T: ParseOption> ParseOption for std::rc::Rc<T> {
    open spec fn stream_ok(s: Seq<TokenNode>) -> bool {
        T::stream_ok(s)
    }

    open spec fn stream_err(s: Seq<TokenNode>) -> Seq<char> {
        T::stream_err(s)
    }

    open spec fn stream_value(s: Seq<TokenNode>, v: Self) -> bool {
        T::stream_value(s, *v)
    }

    fn from_stream(tokens: Vec<TokenNode>) -> (r: Result<Self, ParseError>) {
        match T::from_stream(tokens) {
            Ok(v) => Ok(std::rc::Rc::new(v)),
            Err(e) => Err(e),
        }
    }
}

impl<T: ParseOption> ParseOption for std::sync::Arc<T> {
    open spec fn stream_ok(s: Seq<TokenNode>) -> bool {
        T::stream_ok(s)
    }

    open spec fn stream_err(s: Seq<TokenNode>) -> Seq<char> {
        T::stream_err(s)
    }

    open spec fn stream_value(s: Seq<TokenNode>, v: Self) -> bool {
        T::stream_value(s, *v)
    }

    fn from_stream(tokens: Vec<TokenNode>) -> (r: Result<Self, ParseError>) {
        match T::from_stream(tokens) {
            Ok(v) => Ok(std::sync::Arc::new(v)),
            Err(e) => Err(e),
        }
    }
}

impl ParseOption for crate::tokens::StrLit {
    open spec fn stream_ok(s: Seq<TokenNode>) -> bool {
        crate::ext::spec_valued_attr(s) matches Ok(v) && v.len() == 1 && crate::tokens::is_str_lit(
            v[0],
        )
    }

    open spec fn stream_err(s: Seq<TokenNode>) -> Seq<char> {
        match crate::ext::spec_valued_attr(s) {
            Err(m) => m,
            Ok(v) => if !(v.len() > 0 && crate::tokens::is_str_lit(v[0])) {
                "expected string literal"@
            } else if v.len() != 1 {
                "unexpected token"@
            } else {
                Seq::empty()
            },
        }
    }

    open spec fn stream_value(s: Seq<TokenNode>, lit: Self) -> bool {
        crate::ext::spec_valued_attr(s) matches Ok(v) && v.len() == 1 && (v[0] matches
        TokenNode::Lit { text } && lit@ == text@)
    }

    fn from_stream(tokens: Vec<TokenNode>) -> (r: Result<Self, ParseError>) {
        let mut value = match crate::ext::parse_valued_attr(tokens) {
            Ok(v) => v,
            Err(e) => {
                return Err(e);
            },
        };
        if value.len() == 0 || !value[0].is_str_lit_node() {
            return Err(ParseError::new("expected string literal"));
        }
        if value.len() != 1 {
            return Err(ParseError::new("unexpected token"));
        }
        let head = value.remove(0);
        match head {
            TokenNode::Lit { text } => Ok(crate::tokens::StrLit::from_repr(text)),
            _ => Err(ParseError::new("expected string literal")),
        }
    }
}

impl FromExpr for crate::tokens::StrLit {
    open spec fn expr_ok(e: Seq<TokenNode>) -> bool {
        e.len() == 1 && crate::tokens::is_str_lit(e[0])
    }

    open spec fn expr_err(e: Seq<TokenNode>) -> Seq<char> {
        if e.len() == 1 && crate::tokens::is_str_lit(e[0]) {
            Seq::empty()
        } else if e.len() == 1 && e[0] is Lit {
            "Incompatible literal"@
        } else {
            "Incompatible expression"@
        }
    }

    open spec fn expr_value(e: Seq<TokenNode>, v: Self) -> bool {
        e.len() == 1 && (e[0] matches TokenNode::Lit { text } && v@ == text@)
    }

    open spec fn has_boolean() -> bool {
        false
    }

    open spec fn boolean_value(v: Self) -> bool {
        false
    }

    fn from_expr(expr: Vec<TokenNode>) -> (r: Result<Self, ParseError>) {
        let mut expr = expr;
        if expr.len() != 1 {
            return Err(ParseError::new("Incompatible expression"));
        }
        let head_is_str = expr[0].is_str_lit_node();
        let head = expr.remove(0);
        match head {
            TokenNode::Lit { text } => if head_is_str {
                Ok(crate::tokens::StrLit::from_repr(text))
            } else {
                Err(ParseError::new("Incompatible literal"))
            },
            _ => Err(ParseError::new("Incompatible expression")),
        }
    }

    fn boolean() -> (r: Option<Self>) {
        None
    }
}

impl ParseOption for AttrPath {
    open spec fn stream_ok(s: Seq<TokenNode>) -> bool {
        crate::ext::spec_valued_attr(s) matches Ok(v) && (crate::meta::spec_parse_path(v) matches
        Ok((_, rest)) && rest.len() == 0)
    }

    open spec fn stream_err(s: Seq<TokenNode>) -> Seq<char> {
        match crate::ext::spec_valued_attr(s) {
            Err(m) => m,
            Ok(v) => match crate::meta::spec_parse_path(v) {
                Err(m) => m,
                Ok((_, rest)) => if rest.len() == 0 {
                    Seq::empty()
                } else {
                    "unexpected token"@
                },
            },
        }
    }

    open spec fn stream_value(s: Seq<TokenNode>, p: Self) -> bool {
        crate::ext::spec_valued_attr(s) matches Ok(v) && (crate::meta::spec_parse_path(v) matches
        Ok((pv, rest)) && rest.len() == 0 && p@ == pv)
    }

    fn from_stream(tokens: Vec<TokenNode>) -> (r: Result<Self, ParseError>) {
        let value = match crate::ext::parse_valued_attr(tokens) {
            Ok(v) => v,
            Err(e) => {
                return Err(e);
            },
        };
        match crate::meta::parse_path(value) {
            Ok((path, rest)) => if rest.len() == 0 {
                Ok(path)
            } else {
                Err(ParseError::new("unexpected token"))
            },
            Err(e) => Err(e),
        }
    }
}

impl FromExpr for AttrPath {
    open spec fn expr_ok(e: Seq<TokenNode>) -> bool {
        crate::meta::spec_parse_path(e) matches Ok((_, rest)) && rest.len() == 0
    }

    open spec fn expr_err(e: Seq<TokenNode>) -> Seq<char> {
        match crate::meta::spec_parse_path(e) {
            Err(m) => m,
            Ok((_, rest)) => if rest.len() == 0 {
                Seq::empty()
            } else {
                "unexpected token"@
            },
        }
    }

    open spec fn expr_value(e: Seq<TokenNode>, p: Self) -> bool {
        crate::meta::spec_parse_path(e) matches Ok((pv, rest)) && rest.len() == 0 && p@ == pv
    }

    open spec fn has_boolean() -> bool {
        false
    }

    open spec fn boolean_value(p: Self) -> bool {
        false
    }

    fn from_expr(expr: Vec<TokenNode>) -> (r: Result<Self, ParseError>) {
        match crate::meta::parse_path(expr) {
            Ok((path, rest)) => if rest.len() == 0 {
                Ok(path)
            } else {
                Err(ParseError::new("unexpected token"))
            },
            Err(e) => Err(e),
        }
    }

    fn boolean() -> (r: Option<Self>) {
        None
    }
}

/// A decoded integer option: the announced value is exactly one decimal
/// integer literal whose number is at most `max`.
pub open spec fn int_stream_ok(s: Seq<TokenNode>, max: nat) -> bool {
    crate::ext::spec_valued_attr(s) matches Ok(v) && v.len() == 1 && crate::tokens::is_int_lit(
        v[0],
    ) && crate::tokens::spec_dec_value(crate::tokens::lit_text_of(v[0])) <= max
}

/// The diagnostic for a rejected integer option: the value must open
/// with an integer literal, its number must fit, and nothing may follow.
pub open spec fn int_stream_err(s: Seq<TokenNode>, max: nat) -> Seq<char> {
    match crate::ext::spec_valued_attr(s) {
        Err(m) => m,
        Ok(v) => if !(v.len() > 0 && crate::tokens::is_int_lit(v[0])) {
            "expected integer literal"@
        } else if crate::tokens::spec_dec_value(crate::tokens::lit_text_of(v[0])) > max {
            "number too large to fit in target type"@
        } else if v.len() != 1 {
            "unexpected token"@
        } else {
            Seq::empty()
        },
    }
}

/// `val` is the number that the integer option spells.
pub open spec fn int_stream_is(s: Seq<TokenNode>, val: nat) -> bool {
    crate::ext::spec_valued_attr(s) matches Ok(v) && v.len() == 1 && crate::tokens::is_int_lit(
        v[0],
    ) && crate::tokens::spec_dec_value(crate::tokens::lit_text_of(v[0])) == val
}

/// A decoded integer expression: exactly one decimal integer literal
/// whose number is at most `max`.
pub open spec fn int_expr_ok(e: Seq<TokenNode>, max: nat) -> bool {
    e.len() == 1 && crate::tokens::is_int_lit(e[0]) && crate::tokens::spec_dec_value(
        crate::tokens::lit_text_of(e[0]),
    ) <= max
}

/// The diagnostic for a rejected integer expression.
pub open spec fn int_expr_err(e: Seq<TokenNode>, max: nat) -> Seq<char> {
    if e.len() == 1 && crate::tokens::is_int_lit(e[0]) {
        if crate::tokens::spec_dec_value(crate::tokens::lit_text_of(e[0])) > max {
            "number too large to fit in target type"@
        } else {
            Seq::empty()
        }
    } else if e.len() == 1 && e[0] is Lit {
        "Incompatible literal"@
    } else {
        "Incompatible expression"@
    }
}

/// `val` is the number that the integer expression spells.
pub open spec fn int_expr_is(e: Seq<TokenNode>, val: nat) -> bool {
    e.len() == 1 && crate::tokens::is_int_lit(e[0]) && crate::tokens::spec_dec_value(
        crate::tokens::lit_text_of(e[0]),
    ) == val
}

/// How a value token run decodes as a bounded integer.
enum IntDecode {
    /// The decoded number.
    Value(u64),
    /// The number does not fit the bound.
    TooLarge,
    /// The run does not open with a decimal integer literal.
    NotIntLit,
    /// A token follows the literal.
    Leftover,
}

/// Decode a value token run as one decimal integer literal bounded by
/// `max`.
fn decode_int(value: &Vec<TokenNode>, max: u64) -> (r: IntDecode)
    ensures
        (if !(value@.len() > 0 && crate::tokens::is_int_lit(value@[0])) {
            r is NotIntLit
        } else if crate::tokens::spec_dec_value(crate::tokens::lit_text_of(value@[0]))
            > max as nat {
            r is TooLarge
        } else if value@.len() != 1 {
            r is Leftover
        } else {
            r matches IntDecode::Value(v) && v as nat == crate::tokens::spec_dec_value(
                crate::tokens::lit_text_of(value@[0]),
            ) && v <= max
        }),
{
    if value.len() == 0 || !value[0].is_int_lit_node() {
        return IntDecode::NotIntLit;
    }
    let text = match &value[0] {
        TokenNode::Lit { text } => text,
        _ => {
            return IntDecode::NotIntLit;
        },
    };
    match crate::tokens::parse_dec_u64(text.as_str()) {
        Some(v) => {
            if v > max {
                IntDecode::TooLarge
            } else if value.len() != 1 {
                IntDecode::Leftover
            } else {
                IntDecode::Value(v)
            }
        },
        None => IntDecode::TooLarge,
    }
}

impl ParseOption for u64 {
    open spec fn stream_ok(s: Seq<TokenNode>) -> bool {
        int_stream_ok(s, u64::MAX as nat)
    }

    open spec fn stream_err(s: Seq<TokenNode>) -> Seq<char> {
        int_stream_err(s, u64::MAX as nat)
    }

    open spec fn stream_value(s: Seq<TokenNode>, v: Self) -> bool {
        int_stream_is(s, v as nat)
    }

    fn from_stream(tokens: Vec<TokenNode>) -> (r: Result<Self, ParseError>) {
        let value = match crate::ext::parse_valued_attr(tokens) {
            Ok(v) => v,
            Err(e) => {
                return Err(e);
            },
        };
        match decode_int(&value, u64::MAX) {
            IntDecode::Value(v) => Ok(v),
            IntDecode::TooLarge => Err(ParseError::new("number too large to fit in target type")),
            IntDecode::NotIntLit => Err(ParseError::new("expected integer literal")),
            IntDecode::Leftover => Err(ParseError::new("unexpected token")),
        }
    }
}

impl FromExpr for u64 {
    open spec fn expr_ok(e: Seq<TokenNode>) -> bool {
        int_expr_ok(e, u64::MAX as nat)
    }

    open spec fn expr_err(e: Seq<TokenNode>) -> Seq<char> {
        int_expr_err(e, u64::MAX as nat)
    }

    open spec fn expr_value(e: Seq<TokenNode>, v: Self) -> bool {
        int_expr_is(e, v as nat)
    }

    open spec fn has_boolean() -> bool {
        false
    }

    open spec fn boolean_value(v: Self) -> bool {
        false
    }

    fn from_expr(expr: Vec<TokenNode>) -> (r: Result<Self, ParseError>) {
        if expr.len() != 1 {
            return Err(ParseError::new("Incompatible expression"));
        }
        if !expr[0].is_int_lit_node() {
            if expr[0].is_lit_node() {
                return Err(ParseError::new("Incompatible literal"));
            }
            return Err(ParseError::new("Incompatible expression"));
        }
        match decode_int(&expr, u64::MAX) {
            IntDecode::Value(v) => Ok(v),
            _ => Err(ParseError::new("number too large to fit in target type")),
        }
    }

    fn boolean() -> (r: Option<Self>) {
        None
    }
}

impl ParseOption for u32 {
    open spec fn stream_ok(s: Seq<TokenNode>) -> bool {
        int_stream_ok(s, u32::MAX as nat)
    }

    open spec fn stream_err(s: Seq<TokenNode>) -> Seq<char> {
        int_stream_err(s, u32::MAX as nat)
    }

    open spec fn stream_value(s: Seq<TokenNode>, v: Self) -> bool {
        int_stream_is(s, v as nat)
    }

    fn from_stream(tokens: Vec<TokenNode>) -> (r: Result<Self, ParseError>) {
        let value = match crate::ext::parse_valued_attr(tokens) {
            Ok(v) => v,
            Err(e) => {
                return Err(e);
            },
        };
        match decode_int(&value, u32::MAX as u64) {
            IntDecode::Value(v) => Ok(v as u32),
            IntDecode::TooLarge => Err(ParseError::new("number too large to fit in target type")),
            IntDecode::NotIntLit => Err(ParseError::new("expected integer literal")),
            IntDecode::Leftover => Err(ParseError::new("unexpected token")),
        }
    }
}

impl FromExpr for u32 {
    open spec fn expr_ok(e: Seq<TokenNode>) -> bool {
        int_expr_ok(e, u32::MAX as nat)
    }

    open spec fn expr_err(e: Seq<TokenNode>) -> Seq<char> {
        int_expr_err(e, u32::MAX as nat)
    }

    open spec fn expr_value(e: Seq<TokenNode>, v: Self) -> bool {
        int_expr_is(e, v as nat)
    }

    open spec fn has_boolean() -> bool {
        false
    }

    open spec fn boolean_value(v: Self) -> bool {
        false
    }

    fn from_expr(expr: Vec<TokenNode>) -> (r: Result<Self, ParseError>) {
        if expr.len() != 1 {
            return Err(ParseError::new("Incompatible expression"));
        }
        if !expr[0].is_int_lit_node() {
            if expr[0].is_lit_node() {
                return Err(ParseError::new("Incompatible literal"));
            }
            return Err(ParseError::new("Incompatible expression"));
        }
        match decode_int(&expr, u32::MAX as u64) {
            IntDecode::Value(v) => Ok(v as u32),
            _ => Err(ParseError::new("number too large to fit in target type")),
        }
    }

    fn boolean() -> (r: Option<Self>) {
        None
    }
}

impl ParseOption for u8 {
    open spec fn stream_ok(s: Seq<TokenNode>) -> bool {
        int_stream_ok(s, u8::MAX as nat)
    }

    open spec fn stream_err(s: Seq<TokenNode>) -> Seq<char> {
        int_stream_err(s, u8::MAX as nat)
    }

    open spec fn stream_value(s: Seq<TokenNode>, v: Self) -> bool {
        int_stream_is(s, v as nat)
    }

    fn from_stream(tokens: Vec<TokenNode>) -> (r: Result<Self, ParseError>) {
        let value = match crate::ext::parse_valued_attr(tokens) {
            Ok(v) => v,
            Err(e) => {
                return Err(e);
            },
        };
        match decode_int(&value, u8::MAX as u64) {
            IntDecode::Value(v) => Ok(v as u8),
            IntDecode::TooLarge => Err(ParseError::new("number too large to fit in target type")),
            IntDecode::NotIntLit => Err(ParseError::new("expected integer literal")),
            IntDecode::Leftover => Err(ParseError::new("unexpected token")),
        }
    }
}

impl FromExpr for u8 {
    open spec fn expr_ok(e: Seq<TokenNode>) -> bool {
        int_expr_ok(e, u8::MAX as nat)
    }

    open spec fn expr_err(e: Seq<TokenNode>) -> Seq<char> {
        int_expr_err(e, u8::MAX as nat)
    }

    open spec fn expr_value(e: Seq<TokenNode>, v: Self) -> bool {
        int_expr_is(e, v as nat)
    }

    open spec fn has_boolean() -> bool {
        false
    }

    open spec fn boolean_value(v: Self) -> bool {
        false
    }

    fn from_expr(expr: Vec<TokenNode>) -> (r: Result<Self, ParseError>) {
        if expr.len() != 1 {
            return Err(ParseError::new("Incompatible expression"));
        }
        if !expr[0].is_int_lit_node() {
            if expr[0].is_lit_node() {
                return Err(ParseError::new("Incompatible literal"));
            }
            return Err(ParseError::new("Incompatible expression"));
        }
        match decode_int(&expr, u8::MAX as u64) {
            IntDecode::Value(v) => Ok(v as u8),
            _ => Err(ParseError::new("number too large to fit in target type")),
        }
    }

    fn boolean() -> (r: Option<Self>) {
        None
    }
}

impl ParseOption for u16 {
    open spec fn stream_ok(s: Seq<TokenNode>) -> bool {
        int_stream_ok(s, u16::MAX as nat)
    }

    open spec fn stream_err(s: Seq<TokenNode>) -> Seq<char> {
        int_stream_err(s, u16::MAX as nat)
    }

    open spec fn stream_value(s: Seq<TokenNode>, v: Self) -> bool {
        int_stream_is(s, v as nat)
    }

    fn from_stream(tokens: Vec<TokenNode>) -> (r: Result<Self, ParseError>) {
        let value = match crate::ext::parse_valued_attr(tokens) {
            Ok(v) => v,
            Err(e) => {
                return Err(e);
            },
        };
        match decode_int(&value, u16::MAX as u64) {
            IntDecode::Value(v) => Ok(v as u16),
            IntDecode::TooLarge => Err(ParseError::new("number too large to fit in target type")),
            IntDecode::NotIntLit => Err(ParseError::new("expected integer literal")),
            IntDecode::Leftover => Err(ParseError::new("unexpected token")),
        }
    }
}

impl FromExpr for u16 {
    open spec fn expr_ok(e: Seq<TokenNode>) -> bool {
        int_expr_ok(e, u16::MAX as nat)
    }

    open spec fn expr_err(e: Seq<TokenNode>) -> Seq<char> {
        int_expr_err(e, u16::MAX as nat)
    }

    open spec fn expr_value(e: Seq<TokenNode>, v: Self) -> bool {
        int_expr_is(e, v as nat)
    }

    open spec fn has_boolean() -> bool {
        false
    }

    open spec fn boolean_value(v: Self) -> bool {
        false
    }

    fn from_expr(expr: Vec<TokenNode>) -> (r: Result<Self, ParseError>) {
        if expr.len() != 1 {
            return Err(ParseError::new("Incompatible expression"));
        }
        if !expr[0].is_int_lit_node() {
            if expr[0].is_lit_node() {
                return Err(ParseError::new("Incompatible literal"));
            }
            return Err(ParseError::new("Incompatible expression"));
        }
        match decode_int(&expr, u16::MAX as u64) {
            IntDecode::Value(v) => Ok(v as u16),
            _ => Err(ParseError::new("number too large to fit in target type")),
        }
    }

    fn boolean() -> (r: Option<Self>) {
        None
    }
}

impl ParseOption for usize {
    open spec fn stream_ok(s: Seq<TokenNode>) -> bool {
        int_stream_ok(s, usize::MAX as nat)
    }

    open spec fn stream_err(s: Seq<TokenNode>) -> Seq<char> {
        int_stream_err(s, usize::MAX as nat)
    }

    open spec fn stream_value(s: Seq<TokenNode>, v: Self) -> bool {
        int_stream_is(s, v as nat)
    }

    fn from_stream(tokens: Vec<TokenNode>) -> (r: Result<Self, ParseError>) {
        let value = match crate::ext::parse_valued_attr(tokens) {
            Ok(v) => v,
            Err(e) => {
                return Err(e);
            },
        };
        match decode_int(&value, usize::MAX as u64) {
            IntDecode::Value(v) => Ok(v as usize),
            IntDecode::TooLarge => Err(ParseError::new("number too large to fit in target type")),
            IntDecode::NotIntLit => Err(ParseError::new("expected integer literal")),
            IntDecode::Leftover => Err(ParseError::new("unexpected token")),
        }
    }
}

impl FromExpr for usize {
    open spec fn expr_ok(e: Seq<TokenNode>) -> bool {
        int_expr_ok(e, usize::MAX as nat)
    }

    open spec fn expr_err(e: Seq<TokenNode>) -> Seq<char> {
        int_expr_err(e, usize::MAX as nat)
    }

    open spec fn expr_value(e: Seq<TokenNode>, v: Self) -> bool {
        int_expr_is(e, v as nat)
    }

    open spec fn has_boolean() -> bool {
        false
    }

    open spec fn boolean_value(v: Self) -> bool {
        false
    }

    fn from_expr(expr: Vec<TokenNode>) -> (r: Result<Self, ParseError>) {
        if expr.len() != 1 {
            return Err(ParseError::new("Incompatible expression"));
        }
        if !expr[0].is_int_lit_node() {
            if expr[0].is_lit_node() {
                return Err(ParseError::new("Incompatible literal"));
            }
            return Err(ParseError::new("Incompatible expression"));
        }
        match decode_int(&expr, usize::MAX as u64) {
            IntDecode::Value(v) => Ok(v as usize),
            _ => Err(ParseError::new("number too large to fit in target type")),
        }
    }

    fn boolean() -> (r: Option<Self>) {
        None
    }
}

/// Whether each comma-separated run of a list body decodes as a `T`.
pub open spec fn punct_items_ok<T: ParseOption>(s: Seq<TokenNode>) -> bool
    decreases s.len(),
    via punct_items_ok_decreases::<T>
{
    if s.len() == 0 {
        true
    } else {
        let run = s.subrange(0, crate::delimited::run_end(s, 0, ','));
        T::stream_ok(run) && punct_items_ok::<T>(crate::delimited::after_run(s, ','))
    }
}

#[via_fn]
proof fn punct_items_ok_decreases<T: ParseOption>(s: Seq<TokenNode>) {
    if s.len() > 0 {
        crate::delimited::lemma_run_end_bounds(s, 0, ',');
    }
}

/// The diagnostic of the first run of a list body that does not decode.
pub open spec fn punct_items_err<T: ParseOption>(s: Seq<TokenNode>) -> Seq<char>
    decreases s.len(),
    via punct_items_err_decreases::<T>
{
    if s.len() == 0 {
        Seq::empty()
    } else {
        let run = s.subrange(0, crate::delimited::run_end(s, 0, ','));
        if !T::stream_ok(run) {
            T::stream_err(run)
        } else {
            punct_items_err::<T>(crate::delimited::after_run(s, ','))
        }
    }
}

#[via_fn]
proof fn punct_items_err_decreases<T: ParseOption>(s: Seq<TokenNode>) {
    if s.len() > 0 {
        crate::delimited::lemma_run_end_bounds(s, 0, ',');
    }
}

/// `out` holds the decoded values of the comma-separated runs, in order.
pub open spec fn punct_items_val<T: ParseOption>(s: Seq<TokenNode>, out: Seq<T>) -> bool
    decreases s.len(),
    via punct_items_val_decreases::<T>
{
    if s.len() == 0 {
        out.len() == 0
    } else {
        let run = s.subrange(0, crate::delimited::run_end(s, 0, ','));
        &&& out.len() > 0
        &&& T::stream_value(run, out[0])
        &&& punct_items_val::<T>(crate::delimited::after_run(s, ','), out.skip(1))
    }
}

#[via_fn]
proof fn punct_items_val_decreases<T: ParseOption>(s: Seq<TokenNode>, out: Seq<T>) {
    if s.len() > 0 {
        crate::delimited::lemma_run_end_bounds(s, 0, ',');
    }
}

/// The body of a list assignment: the runs inside `name(v1, v2)`, or
/// inside the bracket group of `name = ([v1, v2])`. An empty stream is an
/// empty list; any other stream must announce a value syntax, and nothing
/// may follow the announced groups.
pub open spec fn punct_body<T: ParseOption>(s: Seq<TokenNode>) -> Result<Seq<TokenNode>, Seq<char>> {
    if s.len() == 0 {
        Ok(Seq::empty())
    } else {
        match crate::value_syntax::spec_value_syntax(s) {
            None => Err("Expected `=` or `(`"@),
            Some(v) => if v is Paren {
                if s.len() == 1 {
                    Ok(crate::tokens::group_contents(s[0]))
                } else {
                    Err("unexpected token"@)
                }
            } else {
                let rest = s.skip(1);
                if !(rest.len() > 0 && crate::tokens::is_paren_group(rest[0])) {
                    Err("expected parentheses"@)
                } else if rest.len() != 1 {
                    Err("unexpected token"@)
                } else {
                    let outer = crate::tokens::group_contents(rest[0]);
                    if !(outer.len() > 0 && crate::tokens::is_group_with(
                        outer[0],
                        crate::tokens::Delim::Bracket,
                    )) {
                        Err("expected square brackets"@)
                    } else if outer.len() != 1 {
                        Err("unexpected token"@)
                    } else {
                        Ok(crate::tokens::group_contents(outer[0]))
                    }
                }
            },
        }
    }
}

/// Decode the comma-separated runs of a list body.
fn decode_punct_items<T: ParseOption>(tokens: Vec<TokenNode>) -> (r: Result<Vec<T>, ParseError>)
    ensures
        r is Ok <==> punct_items_ok::<T>(tokens@),
        (match r {
            Ok(out) => punct_items_val::<T>(tokens@, out@),
            Err(e) => e@ == punct_items_err::<T>(tokens@),
        }),
    decreases tokens@.len(),
{
    if tokens.len() == 0 {
        let out: Vec<T> = Vec::new();
        return Ok(out);
    }
    proof {
        crate::delimited::lemma_run_end_bounds(tokens@, 0, ',');
    }
    let (run, rest) = crate::delimited::split_first_run(tokens, ',');
    let head = match T::from_stream(run) {
        Ok(v) => v,
        Err(e) => {
            return Err(e);
        },
    };
    match decode_punct_items::<T>(rest) {
        Ok(tail) => {
            let ghost tail_view = tail@;
            let mut out = tail;
            out.insert(0, head);
            proof {
                assert(out@.skip(1) =~= tail_view);
            }
            Ok(out)
        },
        Err(e) => Err(e),
    }
}

impl<T: ParseOption> ParseOption for Vec<T> {
    open spec fn stream_ok(s: Seq<TokenNode>) -> bool {
        punct_body::<T>(s) matches Ok(body) && punct_items_ok::<T>(body)
    }

    open spec fn stream_err(s: Seq<TokenNode>) -> Seq<char> {
        match punct_body::<T>(s) {
            Err(m) => m,
            Ok(body) => punct_items_err::<T>(body),
        }
    }

    open spec fn stream_value(s: Seq<TokenNode>, v: Self) -> bool {
        punct_body::<T>(s) matches Ok(body) && punct_items_val::<T>(body, v@)
    }

    fn from_stream(tokens: Vec<TokenNode>) -> (r: Result<Self, ParseError>) {
        if tokens.len() == 0 {
            let out: Vec<T> = Vec::new();
            return Ok(out);
        }
        let mut tokens = tokens;
        match crate::value_syntax::ValueSyntax::from_tokens(&tokens) {
            None => Err(ParseError::new("Expected `=` or `(`")),
            Some(crate::value_syntax::ValueSyntax::Paren) => {
                if tokens.len() != 1 {
                    return Err(ParseError::new("unexpected token"));
                }
                let head = tokens.remove(0);
                match head {
                    TokenNode::Group { tokens: body, .. } => decode_punct_items::<T>(body),
                    _ => Err(ParseError::new("Expected `=` or `(`")),
                }
            },
            Some(crate::value_syntax::ValueSyntax::Eq) => {
                tokens.remove(0);
                if !(tokens.len() > 0 && tokens[0].is_group(crate::tokens::Delim::Paren)) {
                    return Err(ParseError::new("expected parentheses"));
                }
                if tokens.len() != 1 {
                    return Err(ParseError::new("unexpected token"));
                }
                let head = tokens.remove(0);
                let mut outer = match head {
                    TokenNode::Group { tokens: outer, .. } => outer,
                    _ => {
                        return Err(ParseError::new("expected parentheses"));
                    },
                };
                if !(outer.len() > 0 && outer[0].is_group(crate::tokens::Delim::Bracket)) {
                    return Err(ParseError::new("expected square brackets"));
                }
                if outer.len() != 1 {
                    return Err(ParseError::new("unexpected token"));
                }
                let inner = outer.remove(0);
                match inner {
                    TokenNode::Group { tokens: body, .. } => decode_punct_items::<T>(body),
                    _ => Err(ParseError::new("expected square brackets")),
                }
            },
        }
    }
}

/// Options derivable from a sequence of attributes.
pub trait AttributeOptions: Sized {
    /// Which attribute sequences these options accept.
    spec fn attrs_ok(attrs: Seq<Attr>) -> bool;

    /// The message reported for a rejected attribute sequence.
    spec fn attrs_err(attrs: Seq<Attr>) -> Seq<char>;

    /// `v` is the options value that `attrs` spells.
    spec fn attrs_value(attrs: Seq<Attr>, v: Self) -> bool;

    /// Parse and construct from a sequence of attributes.
    fn from_iter(attributes: Vec<Attr>) -> (r: Result<Self, ParseError>)
        ensures
            r is Ok <==> Self::attrs_ok(attributes@),
            (match r {
                Ok(v) => Self::attrs_value(attributes@, v),
                Err(e) => e@ == Self::attrs_err(attributes@),
            }),
    ;

    /// Parse and construct from one attribute.
    fn from_attr(attribute: Attr) -> (r: Result<Self, ParseError>)
        ensures
            r is Ok <==> Self::attrs_ok(seq![attribute]),
            (match r {
                Ok(v) => Self::attrs_value(seq![attribute], v),
                Err(e) => e@ == Self::attrs_err(seq![attribute]),
            }),
    {
        let mut attributes: Vec<Attr> = Vec::new();
        attributes.push(attribute);
        proof {
            assert(attributes@ =~= seq![attribute]);
        }
        Self::from_iter(attributes)
    }

    /// Keep the attributes whose path is exactly the identifier
    /// `attr_name`, in order, and parse the options from those.
    fn from_iter_named(attr_name: &str, attributes: Vec<Attr>) -> (r: Result<Self, ParseError>)
        ensures
            ({
                let kept = named_attrs(attributes@, attr_name@);
                &&& (r is Ok <==> Self::attrs_ok(kept))
                &&& (match r {
                    Ok(v) => Self::attrs_value(kept, v),
                    Err(e) => e@ == Self::attrs_err(kept),
                })
            }),
    {
        let ghost s0 = attributes@;
        let mut rem = attributes;
        let mut kept: Vec<Attr> = Vec::new();
        while rem.len() > 0
            invariant
                named_attrs(s0, attr_name@) == kept@ + named_attrs(rem@, attr_name@),
            decreases rem@.len(),
        {
            let ghost rem_before = rem@;
            let ghost kept_before = kept@;
            let head = rem.remove(0);
            let keep = head.path_is_ident(attr_name);
            proof {
                assert(rem_before == seq![head] + rem@);
                lemma_named_attrs_head(rem_before, attr_name@);
                assert(rem_before.skip(1) =~= rem@);
            }
            if keep {
                kept.push(head);
                proof {
                    assert(kept_before + named_attrs(rem_before, attr_name@) =~= kept@
                        + named_attrs(rem@, attr_name@));
                }
            } else {
                proof {
                    assert(kept_before + named_attrs(rem_before, attr_name@) =~= kept@
                        + named_attrs(rem@, attr_name@));
                }
            }
        }
        proof {
            lemma_named_attrs_empty(rem@, attr_name@);
            assert(named_attrs(s0, attr_name@) =~= kept@);
        }
        Self::from_iter(kept)
    }

    /// Parse a stream containing options, `opt1(val1), opt2(val2)`, by
    /// wrapping it as the argument list of a synthetic attribute.
    fn from_stream(tokens: Vec<TokenNode>) -> (r: Result<Self, ParseError>)
        ensures
            (exists|a: Attr|
                {
                    &&& wraps_list_attr(tokens@, a)
                    &&& (r is Ok <==> Self::attrs_ok(seq![a]))
                    &&& (match r {
                        Ok(v) => Self::attrs_value(seq![a], v),
                        Err(e) => e@ == Self::attrs_err(seq![a]),
                    })
                }),
    {
        let mut segments: Vec<String> = Vec::new();
        segments.push("x".to_owned());
        let attr = Attr {
            inner: false,
            path: AttrPath { leading: false, segments },
            meta: AttrMetaKind::List(tokens),
        };
        let ghost wit = attr;
        proof {
            assert(wraps_list_attr(attr.meta->List_0@, wit));
        }
        let r = Self::from_attr(attr);
        proof {
            assert(wraps_list_attr(wit.meta->List_0@, wit));
        }
        r
    }
}

/// `a` is a synthetic outer attribute `x(...)` wrapping exactly `tokens`
/// as its argument list.
pub open spec fn wraps_list_attr(tokens: Seq<TokenNode>, a: Attr) -> bool {
    &&& !a.inner
    &&& !a.path.leading
    &&& a.path.segments@.len() == 1
    &&& a.path.segments@[0]@ == "x"@
    &&& a.meta matches AttrMetaKind::List(v) && v@ == tokens
}

/// The attributes of `attrs` named by the single identifier `name`, in
/// order.
pub open spec fn named_attrs(attrs: Seq<Attr>, name: Seq<char>) -> Seq<Attr>
    decreases attrs.len(),
{
    if attrs.len() == 0 {
        Seq::empty()
    } else {
        let tail = named_attrs(attrs.skip(1), name);
        if attr_is_named(attrs[0], name) {
            seq![attrs[0]] + tail
        } else {
            tail
        }
    }
}

/// Unfolding [`named_attrs`] at the head of a non-empty sequence.
proof fn lemma_named_attrs_head(attrs: Seq<Attr>, name: Seq<char>)
    requires
        attrs.len() > 0,
    ensures
        named_attrs(attrs, name) == (if attr_is_named(attrs[0], name) {
            seq![attrs[0]] + named_attrs(attrs.skip(1), name)
        } else {
            named_attrs(attrs.skip(1), name)
        }),
{
}

/// No attribute of an empty sequence is kept.
proof fn lemma_named_attrs_empty(attrs: Seq<Attr>, name: Seq<char>)
    requires
        attrs.len() == 0,
    ensures
        named_attrs(attrs, name) == Seq::<Attr>::empty(),
{
}

} // verus!
