use vstd::prelude::*;

use crate::tokens::TokenNode;

verus! {

/// Something that can spell itself as a sequence of token nodes.
///
/// `tokens_match` pins the spelled sequence: it holds exactly of the token
/// sequences this value appends.
pub trait ToTokenNodes: Sized {
    /// `ts` is the token sequence this value spells.
    spec fn tokens_match(self, ts: Seq<TokenNode>) -> bool;

    /// Append this value's tokens to `tokens`, leaving what was already
    /// there in place.
    fn to_tokens(self, tokens: &mut Vec<TokenNode>)
        ensures
            final(tokens)@.len() >= old(tokens)@.len(),
            final(tokens)@.take(old(tokens)@.len() as int) == old(tokens)@,
            self.tokens_match(final(tokens)@.skip(old(tokens)@.len() as int)),
    ;

    /// This value's tokens as a fresh sequence.
    fn into_token_stream(self) -> (r: Vec<TokenNode>)
        ensures
            self.tokens_match(r@),
    {
        let mut tokens: Vec<TokenNode> = Vec::new();
        let ghost me = self;
        self.to_tokens(&mut tokens);
        proof {
            assert(tokens@.skip(0) =~= tokens@);
        }
        tokens
    }
}

impl ToTokenNodes for TokenNode {
    open spec fn tokens_match(self, ts: Seq<TokenNode>) -> bool {
        ts =~= seq![self]
    }

    fn to_tokens(self, tokens: &mut Vec<TokenNode>) {
        let ghost me = self;
        let ghost before = tokens@;
        tokens.push(self);
        proof {
            assert(tokens@.take(before.len() as int) =~= before);
            assert(tokens@.skip(before.len() as int) =~= seq![me]);
        }
    }
}

} // verus!
