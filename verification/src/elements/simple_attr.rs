use vstd::prelude::*;

use crate::elements::to_tokens::ToTokenNodes;
use crate::tokens::{is_ident_text, is_joint_punct_ch, Delim, TokenNode};

verus! {

/// A simple inner or outer attribute, e.g. `#[inline]` or `#![foo]`.
#[derive(Copy, Clone, Debug)]
pub struct SimpleAttr<'a> {
    text: &'a str,
    is_inner: bool,
}

impl<'a> SimpleAttr<'a> {
    /// The attribute body text.
    pub closed spec fn spec_text(self) -> Seq<char> {
        self.text@
    }

    /// Whether this is an inner attribute.
    pub closed spec fn spec_inner(self) -> bool {
        self.is_inner
    }

    /// Check whether this is an inner (`#![...]`) or outer (`#[...]`)
    /// attribute.
    pub fn is_inner(self) -> (r: bool)
        ensures
            r == self.spec_inner(),
    {
        self.is_inner
    }

    /// Constructor for an inner attribute.
    pub fn new_inner(text: &'a str) -> (r: Self)
        ensures
            r.spec_text() == text@,
            r.spec_inner(),
    {
        SimpleAttr { text, is_inner: true }
    }

    /// Constructor for an outer attribute.
    pub fn new_outer(text: &'a str) -> (r: Self)
        ensures
            r.spec_text() == text@,
            !r.spec_inner(),
    {
        SimpleAttr { text, is_inner: false }
    }

    /// The attribute body text.
    pub fn text(&self) -> (r: &'a str)
        ensures
            r@ == self.spec_text(),
    {
        self.text
    }
}

impl<'a> ToTokenNodes for SimpleAttr<'a> {
    open spec fn tokens_match(self, ts: Seq<TokenNode>) -> bool {
        &&& ts.len() == (if self.spec_inner() {
            3int
        } else {
            2int
        })
        &&& is_joint_punct_ch(ts[0], '#')
        &&& (self.spec_inner() ==> is_joint_punct_ch(ts[1], '!'))
        &&& (ts.last() matches TokenNode::Group { delim, tokens: body } && delim is Bracket
            && body@.len() == 1 && is_ident_text(body@[0], self.spec_text()))
    }

    fn to_tokens(self, tokens: &mut Vec<TokenNode>) {
        let ghost base = old(tokens)@.len() as int;
        tokens.push(TokenNode::Punct { ch: '#', joint: true });
        if self.is_inner {
            tokens.push(TokenNode::Punct { ch: '!', joint: true });
        }
        let mut body: Vec<TokenNode> = Vec::new();
        body.push(TokenNode::Ident { text: self.text.to_owned() });
        tokens.push(TokenNode::Group { delim: Delim::Bracket, tokens: body });
        proof {
            assert(tokens@.take(base) =~= old(tokens)@);
            let ts = tokens@.skip(base);
            assert(ts.last() == tokens@.last());
        }
    }
}

} // verus!
