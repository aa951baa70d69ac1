use vstd::prelude::*;

use crate::elements::generic_impl::{GenericsLike, SplitGenerics};
use crate::elements::to_tokens::ToTokenNodes;
use crate::tokens::{is_ident_text, TokenNode};

verus! {

/// The fixed-shape header `impl SomeTrait for SomeType`: split generics,
/// the implemented trait and the target type's identifier.
pub struct ImplFor<W> {
    generics: SplitGenerics,
    what: W,
    target: String,
}

impl<W> ImplFor<W> {
    /// The split generics of the header.
    pub closed spec fn spec_generics(self) -> SplitGenerics {
        self.generics
    }

    /// The trait the header implements.
    pub closed spec fn spec_what(self) -> W {
        self.what
    }

    /// The identifier of the type implemented for.
    pub closed spec fn spec_target(self) -> Seq<char> {
        self.target@
    }

    /// `implemented_trait` is the name of the trait being implemented,
    /// `implemented_for` the type it is implemented for.
    pub fn new(generics: SplitGenerics, implemented_trait: W, implemented_for: String) -> (r: Self)
        ensures
            r.spec_generics() == generics,
            r.spec_what() == implemented_trait,
            r.spec_target() == implemented_for@,
    {
        ImplFor { generics, what: implemented_trait, target: implemented_for }
    }
}

impl<W: ToTokenNodes> ToTokenNodes for ImplFor<W> {
    open spec fn tokens_match(self, ts: Seq<TokenNode>) -> bool {
        exists|a: int, b: int, c: int|
            #![trigger ts.subrange(1, a), ts.subrange(a, b), ts.subrange(b + 2, c)]
            {
                &&& 1 <= a <= b
                &&& b + 2 <= c <= ts.len()
                &&& is_ident_text(ts[0], "impl"@)
                &&& ts.subrange(1, a) == self.spec_generics().spec_impl_generics()
                &&& self.spec_what().tokens_match(ts.subrange(a, b))
                &&& is_ident_text(ts[b], "for"@)
                &&& is_ident_text(ts[b + 1], self.spec_target())
                &&& ts.subrange(b + 2, c) == self.spec_generics().spec_ty_generics()
                &&& ts.skip(c) == self.spec_generics().spec_where_clause()
            }
    }

    fn to_tokens(self, tokens: &mut Vec<TokenNode>) {
        let ghost me = self;
        let ghost base = old(tokens)@.len() as int;
        let ImplFor { generics, what, target } = self;
        let SplitGenerics { impl_generics, ty_generics, where_clause } = generics;
        tokens.push(TokenNode::Ident { text: "impl".to_owned() });
        let ghost v1 = tokens@;
        let ghost g1v = impl_generics@;
        let mut g1 = impl_generics;
        tokens.append(&mut g1);
        let ghost v2 = tokens@;
        what.to_tokens(tokens);
        let ghost v3 = tokens@;
        let ghost trseg = v3.skip(v2.len() as int);
        tokens.push(TokenNode::Ident { text: "for".to_owned() });
        tokens.push(TokenNode::Ident { text: target });
        let ghost v4 = tokens@;
        let ghost g2v = ty_generics@;
        let mut g2 = ty_generics;
        tokens.append(&mut g2);
        let ghost g3v = where_clause@;
        let mut g3 = where_clause;
        tokens.append(&mut g3);
        proof {
            let ts = tokens@.skip(base);
            let a = 1 + g1v.len() as int;
            let b = a + trseg.len() as int;
            let c = b + 2 + g2v.len() as int;
            assert(v3.take(v2.len() as int) == v2);
            assert(v3 =~= v2 + trseg);
            assert(v2 == v1 + g1v);
            assert(is_ident_text(v1[base as int], "impl"@));
            assert(v4 == v3.push(v4[v3.len() as int]).push(v4[v3.len() as int + 1]));
            assert(is_ident_text(v4[v3.len() as int], "for"@));
            assert(is_ident_text(v4[v3.len() as int + 1], me.spec_target()));
            assert(tokens@ =~= v4 + g2v + g3v);
            assert(tokens@.take(base) =~= old(tokens)@);
            assert(is_ident_text(ts[0], "impl"@));
            assert(ts.subrange(1, a) =~= g1v);
            assert(ts.subrange(a, b) =~= trseg);
            assert(me.spec_what().tokens_match(ts.subrange(a, b)));
            assert(is_ident_text(ts[b], "for"@));
            assert(is_ident_text(ts[b + 1], me.spec_target()));
            assert(ts.subrange(b + 2, c) =~= g2v);
            assert(ts.skip(c) =~= g3v);
            assert(me.tokens_match(ts));
        }
    }
}

} // verus!
