//! `impl SomeTrait for SomeType`.

use vstd::prelude::*;

use crate::elements::to_tokens::ToTokenNodes;
use crate::tokens::{is_ident_text, TokenNode};

verus! {

/// The three rendering pieces of a generics clause, held as raw tokens:
/// what stands between `impl` and the trait, what follows the target
/// type, and the where clause.
pub struct SplitGenerics {
    /// The tokens after `impl` (`<T: Clone>`).
    pub impl_generics: Vec<TokenNode>,
    /// The tokens after the target type (`<T>`).
    pub ty_generics: Vec<TokenNode>,
    /// The where clause tokens, empty when there is none.
    pub where_clause: Vec<TokenNode>,
}

/// Generics, or something that splits like them for rendering.
pub trait GenericsLike: Sized {
    /// The tokens after `impl`.
    spec fn spec_impl_generics(self) -> Seq<TokenNode>;

    /// The tokens after the target type.
    spec fn spec_ty_generics(self) -> Seq<TokenNode>;

    /// The where clause tokens.
    spec fn spec_where_clause(self) -> Seq<TokenNode>;

    /// The three rendering pieces.
    fn split_for_impl(self) -> (r: SplitGenerics)
        ensures
            r.impl_generics@ == self.spec_impl_generics(),
            r.ty_generics@ == self.spec_ty_generics(),
            r.where_clause@ == self.spec_where_clause(),
    ;
}

impl GenericsLike for SplitGenerics {
    open spec fn spec_impl_generics(self) -> Seq<TokenNode> {
        self.impl_generics@
    }

    open spec fn spec_ty_generics(self) -> Seq<TokenNode> {
        self.ty_generics@
    }

    open spec fn spec_where_clause(self) -> Seq<TokenNode> {
        self.where_clause@
    }

    fn split_for_impl(self) -> (r: SplitGenerics) {
        self
    }
}

/// Stands for an omitted trait or target in a [`GenericImpl`]; nothing is
/// rendered for it.
pub struct Unspecified;

/// The header of `impl<T> SomeTrait for SomeType<T>` or
/// `impl<T> SomeType<T>`, built from generics, an optional trait and an
/// optional target.
pub struct GenericImpl<G, Tgt = Unspecified, Tr = Unspecified> {
    generics: G,
    implemented_for: Tgt,
    implemented_trait: Tr,
}

impl<G> GenericImpl<G> {
    /// Implement using the given generics.
    pub fn new(generics: G) -> (r: Self) where G: GenericsLike
        ensures
            r.spec_generics() == generics,
    {
        GenericImpl { generics, implemented_trait: Unspecified, implemented_for: Unspecified }
    }
}

impl<G, Tgt, Tr> GenericImpl<G, Tgt, Tr> {
    /// The generics of the header.
    pub closed spec fn spec_generics(self) -> G {
        self.generics
    }

    /// The type the header implements for.
    pub closed spec fn spec_target(self) -> Tgt {
        self.implemented_for
    }

    /// The trait the header implements.
    pub closed spec fn spec_trait(self) -> Tr {
        self.implemented_trait
    }

    /// Implement the given trait.
    pub fn with_trait<Tr2>(self, trait_name: Tr2) -> (r: GenericImpl<G, Tgt, Tr2>)
        ensures
            r.spec_generics() == self.spec_generics(),
            r.spec_target() == self.spec_target(),
            r.spec_trait() == trait_name,
    {
        GenericImpl {
            generics: self.generics,
            implemented_trait: trait_name,
            implemented_for: self.implemented_for,
        }
    }

    /// Implement for the given type.
    pub fn with_target<Tgt2>(self, target: Tgt2) -> (r: GenericImpl<G, Tgt2, Tr>)
        ensures
            r.spec_generics() == self.spec_generics(),
            r.spec_target() == target,
            r.spec_trait() == self.spec_trait(),
    {
        GenericImpl {
            generics: self.generics,
            implemented_trait: self.implemented_trait,
            implemented_for: target,
        }
    }
}

impl<G: GenericsLike, Tgt: ToTokenNodes> ToTokenNodes for GenericImpl<G, Tgt> {
    open spec fn tokens_match(self, ts: Seq<TokenNode>) -> bool {
        exists|a: int, b: int, c: int|
            {
                &&& 1 <= a <= b <= c <= ts.len()
                &&& is_ident_text(ts[0], "impl"@)
                &&& ts.subrange(1, a) == self.spec_generics().spec_impl_generics()
                &&& self.spec_target().tokens_match(ts.subrange(a, b))
                &&& ts.subrange(b, c) == self.spec_generics().spec_ty_generics()
                &&& ts.skip(c) == self.spec_generics().spec_where_clause()
            }
    }

    fn to_tokens(self, tokens: &mut Vec<TokenNode>) {
        let ghost me = self;
        let ghost base = old(tokens)@.len() as int;
        let GenericImpl { generics, implemented_for, implemented_trait: _ } = self;
        let split = generics.split_for_impl();
        let SplitGenerics { impl_generics, ty_generics, where_clause } = split;
        tokens.push(TokenNode::Ident { text: "impl".to_owned() });
        let ghost v1 = tokens@;
        let ghost g1v = impl_generics@;
        let mut g1 = impl_generics;
        tokens.append(&mut g1);
        let ghost v2 = tokens@;
        implemented_for.to_tokens(tokens);
        let ghost v3 = tokens@;
        let ghost tseg = v3.skip(v2.len() as int);
        let ghost g2v = ty_generics@;
        let mut g2 = ty_generics;
        tokens.append(&mut g2);
        let ghost g3v = where_clause@;
        let mut g3 = where_clause;
        tokens.append(&mut g3);
        proof {
            let ts = tokens@.skip(base);
            let a = 1 + g1v.len() as int;
            let b = a + tseg.len() as int;
            let c = b + g2v.len() as int;
            assert(v3.take(v2.len() as int) == v2);
            assert(v3 =~= v2 + tseg);
            assert(v2 == v1 + g1v);
            assert(is_ident_text(v1[base as int], "impl"@));
            assert(tokens@ =~= v3 + g2v + g3v);
            assert(tokens@.take(base) =~= old(tokens)@);
            assert(is_ident_text(ts[0], "impl"@));
            assert(ts.subrange(1, a) =~= g1v);
            assert(ts.subrange(a, b) =~= tseg);
            assert(me.spec_target().tokens_match(ts.subrange(a, b)));
            assert(ts.subrange(b, c) =~= g2v);
            assert(ts.skip(c) =~= g3v);
            assert(me.tokens_match(ts));
        }
    }
}

impl<G: GenericsLike, Tgt: ToTokenNodes, Tr: ToTokenNodes> ToTokenNodes for GenericImpl<
    G,
    Tgt,
    Tr,
> {
    open spec fn tokens_match(self, ts: Seq<TokenNode>) -> bool {
        exists|a: int, b: int, c: int, d: int|
            #![trigger ts.subrange(a, b), ts.subrange(b + 1, c), ts.subrange(c, d)]
            {
                &&& 1 <= a <= b < c <= d <= ts.len()
                &&& is_ident_text(ts[0], "impl"@)
                &&& ts.subrange(1, a) == self.spec_generics().spec_impl_generics()
                &&& self.spec_trait().tokens_match(ts.subrange(a, b))
                &&& is_ident_text(ts[b], "for"@)
                &&& self.spec_target().tokens_match(ts.subrange(b + 1, c))
                &&& ts.subrange(c, d) == self.spec_generics().spec_ty_generics()
                &&& ts.skip(d) == self.spec_generics().spec_where_clause()
            }
    }

    fn to_tokens(self, tokens: &mut Vec<TokenNode>) {
        let ghost me = self;
        let ghost base = old(tokens)@.len() as int;
        let GenericImpl { generics, implemented_for, implemented_trait } = self;
        let split = generics.split_for_impl();
        let SplitGenerics { impl_generics, ty_generics, where_clause } = split;
        tokens.push(TokenNode::Ident { text: "impl".to_owned() });
        let ghost v1 = tokens@;
        let ghost g1v = impl_generics@;
        let mut g1 = impl_generics;
        tokens.append(&mut g1);
        let ghost v2 = tokens@;
        implemented_trait.to_tokens(tokens);
        let ghost v3 = tokens@;
        let ghost trseg = v3.skip(v2.len() as int);
        tokens.push(TokenNode::Ident { text: "for".to_owned() });
        let ghost v4 = tokens@;
        implemented_for.to_tokens(tokens);
        let ghost v5 = tokens@;
        let ghost tgseg = v5.skip(v4.len() as int);
        let ghost g2v = ty_generics@;
        let mut g2 = ty_generics;
        tokens.append(&mut g2);
        let ghost g3v = where_clause@;
        let mut g3 = where_clause;
        tokens.append(&mut g3);
        proof {
            let ts = tokens@.skip(base);
            let a = 1 + g1v.len() as int;
            let b = a + trseg.len() as int;
            let c = b + 1 + tgseg.len() as int;
            let d = c + g2v.len() as int;
            assert(v3.take(v2.len() as int) == v2);
            assert(v3 =~= v2 + trseg);
            assert(v2 == v1 + g1v);
            assert(is_ident_text(v1[base as int], "impl"@));
            assert(v5.take(v4.len() as int) == v4);
            assert(v5 =~= v4 + tgseg);
            assert(v4 == v3.push(v4.last()));
            assert(is_ident_text(v4[v3.len() as int], "for"@));
            assert(tokens@ =~= v5 + g2v + g3v);
            assert(tokens@.take(base) =~= old(tokens)@);
            assert(is_ident_text(ts[0], "impl"@));
            assert(ts.subrange(1, a) =~= g1v);
            assert(ts.subrange(a, b) =~= trseg);
            assert(me.spec_trait().tokens_match(ts.subrange(a, b)));
            assert(is_ident_text(ts[b], "for"@));
            assert(ts.subrange(b + 1, c) =~= tgseg);
            assert(me.spec_target().tokens_match(ts.subrange(b + 1, c)));
            assert(ts.subrange(c, d) =~= g2v);
            assert(ts.skip(d) =~= g3v);
            assert(me.tokens_match(ts));
        }
    }
}

} // verus!
