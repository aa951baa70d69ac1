//! The boundary to the real macro token types: lexing text and reshaping
//! token trees into the library's own [`TokenNode`](crate::tokens::TokenNode)
//! form.

use vstd::prelude::*;

use crate::errors::ParseError;
use crate::tokens::{Delim, TokenNode};

verus! {

#[verifier::external_type_specification]
#[verifier::external_body]
pub struct ExTokenStream(proc_macro2::TokenStream);

#[verifier::external_type_specification]
#[verifier::external_body]
pub struct ExTokenTree(proc_macro2::TokenTree);

#[verifier::external_type_specification]
#[verifier::external_body]
pub struct ExGroup(proc_macro2::Group);

#[verifier::external_type_specification]
#[verifier::external_body]
pub struct ExIdent(proc_macro2::Ident);

#[verifier::external_type_specification]
#[verifier::external_body]
pub struct ExPunct(proc_macro2::Punct);

#[verifier::external_type_specification]
#[verifier::external_body]
pub struct ExLiteral(proc_macro2::Literal);

#[verifier::external_type_specification]
#[verifier::external_body]
pub struct ExLexError(proc_macro2::LexError);

/// One macro token tree, taken apart into its four shapes.
pub enum TreeParts {
    /// A delimited group.
    Group(proc_macro2::Group),
    /// An identifier or keyword.
    Ident(proc_macro2::Ident),
    /// A punctuation character.
    Punct(proc_macro2::Punct),
    /// A literal.
    Lit(proc_macro2::Literal),
}

/// Relies on `str::parse::<proc_macro2::TokenStream>`: lexes source text
/// into a token stream, or reports why it does not lex.
#[verifier::external_body]
fn lex_stream(text: &str) -> Result<proc_macro2::TokenStream, proc_macro2::LexError> {
    text.parse::<proc_macro2::TokenStream>()
}

/// Relies on `proc_macro2::LexError`'s display: the message text of a lex
/// error.
#[verifier::external_body]
fn lex_error_text(err: &proc_macro2::LexError) -> String {
    err.to_string()
}

/// Relies on `proc_macro2::TokenStream::into_iter`: the token trees of
/// the stream, in order.
#[verifier::external_body]
fn stream_trees(ts: proc_macro2::TokenStream) -> Vec<proc_macro2::TokenTree> {
    ts.into_iter().collect()
}

/// Relies on `proc_macro2::TokenTree` being one of four shapes; each arm
/// moves the shape's value across.
#[verifier::external_body]
fn split_tree(t: proc_macro2::TokenTree) -> TreeParts {
    match t {
        proc_macro2::TokenTree::Group(g) => TreeParts::Group(g),
        proc_macro2::TokenTree::Ident(i) => TreeParts::Ident(i),
        proc_macro2::TokenTree::Punct(p) => TreeParts::Punct(p),
        proc_macro2::TokenTree::Literal(l) => TreeParts::Lit(l),
    }
}

/// Relies on `proc_macro2::Ident`'s display: the identifier's text.
#[verifier::external_body]
fn ident_text(i: &proc_macro2::Ident) -> String {
    i.to_string()
}

/// Relies on `proc_macro2::Punct::as_char`: the punctuation character.
#[verifier::external_body]
fn punct_char(p: &proc_macro2::Punct) -> char {
    p.as_char()
}

/// Relies on `proc_macro2::Punct::spacing`: whether the punct is jointly
/// spaced with the next token.
#[verifier::external_body]
fn punct_is_joint(p: &proc_macro2::Punct) -> bool {
    matches!(p.spacing(), proc_macro2::Spacing::Joint)
}

/// Relies on `proc_macro2::Group::delimiter`; each arm maps one delimiter
/// across.
#[verifier::external_body]
fn group_delim(g: &proc_macro2::Group) -> Delim {
    match g.delimiter() {
        proc_macro2::Delimiter::Parenthesis => Delim::Paren,
        proc_macro2::Delimiter::Bracket => Delim::Bracket,
        proc_macro2::Delimiter::Brace => Delim::Brace,
        proc_macro2::Delimiter::None => Delim::Invisible,
    }
}

/// Relies on `proc_macro2::Group::stream`: the tokens inside the group.
#[verifier::external_body]
fn group_stream(g: &proc_macro2::Group) -> proc_macro2::TokenStream {
    g.stream()
}

/// Relies on `proc_macro2::Literal`'s display: the literal's source text.
#[verifier::external_body]
fn literal_text(l: &proc_macro2::Literal) -> String {
    l.to_string()
}

/// Reshape one macro token tree into the library's form, descending at
/// most `depth` levels into nested groups; `None` when the tree nests
/// deeper.
pub fn tree_to_node(t: proc_macro2::TokenTree, depth: u64) -> (r: Option<TokenNode>)
    decreases depth, 0int,
{
    match split_tree(t) {
        TreeParts::Ident(i) => Some(TokenNode::Ident { text: ident_text(&i) }),
        TreeParts::Punct(p) => Some(
            TokenNode::Punct { ch: punct_char(&p), joint: punct_is_joint(&p) },
        ),
        TreeParts::Lit(l) => Some(TokenNode::Lit { text: literal_text(&l) }),
        TreeParts::Group(g) => {
            if depth == 0 {
                None
            } else {
                let delim = group_delim(&g);
                match stream_to_tokens(group_stream(&g), depth - 1) {
                    Some(tokens) => Some(TokenNode::Group { delim, tokens }),
                    None => None,
                }
            }
        },
    }
}

/// Reshape a macro token stream into the library's form, descending at
/// most `depth` levels into nested groups; `None` when the stream nests
/// deeper.
pub fn stream_to_tokens(ts: proc_macro2::TokenStream, depth: u64) -> (r: Option<Vec<TokenNode>>)
    decreases depth, 1int,
{
    let mut trees = stream_trees(ts);
    let mut out: Vec<TokenNode> = Vec::new();
    while trees.len() > 0
        decreases trees@.len(),
    {
        let head = trees.remove(0);
        match tree_to_node(head, depth) {
            Some(node) => out.push(node),
            None => {
                return None;
            },
        }
    }
    Some(out)
}

/// Lex source text and reshape it into the library's token form. A lex
/// error keeps its own message; too-deep nesting reports as such.
pub fn lex_tokens(text: &str, depth: u64) -> (r: Result<Vec<TokenNode>, ParseError>) {
    match lex_stream(text) {
        Ok(ts) => match stream_to_tokens(ts, depth) {
            Some(tokens) => Ok(tokens),
            None => Err(ParseError::new("token stream nests too deeply")),
        },
        Err(err) => {
            let msg = lex_error_text(&err);
            Err(ParseError::from_string(msg))
        },
    }
}

} // verus!
