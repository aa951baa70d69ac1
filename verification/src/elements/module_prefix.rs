//! A module prefix, e.g. `::your_crate::__private`.

use vstd::prelude::*;

use crate::elements::to_tokens::ToTokenNodes;
use crate::tokens::{is_ident_text, is_joint_punct_ch, TokenNode};

verus! {

/// A module prefix, e.g. `::your_crate::__private`: path segments with an
/// optional leading separator.
#[derive(Copy, Clone, Debug, PartialEq, Eq, Hash)]
pub struct ModulePrefix<'a, const LEN: usize> {
    path: [&'a str; LEN],
    leading_sep: bool,
}

/// A chained [`ModulePrefix`] separated by `::`.
pub struct Chain<A, B> {
    a: A,
    b: B,
}

/// The text that a segment sequence renders to after the first segment:
/// ` :: ` before each further segment.
pub open spec fn spec_render_tail(segs: Seq<Seq<char>>) -> Seq<char>
    decreases segs.len(),
{
    if segs.len() == 0 {
        Seq::empty()
    } else {
        " :: "@ + segs[0] + spec_render_tail(segs.skip(1))
    }
}

/// The text a module prefix renders to: segments joined by ` :: `, with a
/// leading `:: ` when the leading separator is kept.
pub open spec fn spec_render(segs: Seq<Seq<char>>, leading: bool) -> Seq<char> {
    if segs.len() == 0 {
        Seq::empty()
    } else {
        (if leading {
            ":: "@
        } else {
            Seq::<char>::empty()
        }) + segs[0] + spec_render_tail(segs.skip(1))
    }
}

/// `ts` spells `::`-prefixed segments: for each segment a jointly spaced
/// colon, a second colon, and the segment identifier.
pub open spec fn sep_segments_match(segs: Seq<Seq<char>>, ts: Seq<TokenNode>) -> bool
    decreases segs.len(),
{
    if segs.len() == 0 {
        ts.len() == 0
    } else {
        &&& ts.len() >= 3
        &&& is_joint_punct_ch(ts[0], ':')
        &&& ts[1] == (TokenNode::Punct { ch: ':', joint: false })
        &&& is_ident_text(ts[2], segs[0])
        &&& sep_segments_match(segs.skip(1), ts.skip(3))
    }
}

/// `ts` spells the module prefix: with a leading separator every segment
/// is `::`-prefixed, otherwise the first stands bare.
pub open spec fn module_prefix_match(segs: Seq<Seq<char>>, leading: bool, ts: Seq<
    TokenNode,
>) -> bool {
    if segs.len() == 0 {
        ts.len() == 0
    } else if leading {
        sep_segments_match(segs, ts)
    } else {
        ts.len() >= 1 && is_ident_text(ts[0], segs[0]) && sep_segments_match(
            segs.skip(1),
            ts.skip(1),
        )
    }
}

/// Appending one more `::`-prefixed segment extends a matching token
/// sequence.
pub(crate) proof fn lemma_sep_append_one(
    segs: Seq<Seq<char>>,
    ts: Seq<TokenNode>,
    seg: Seq<char>,
    three: Seq<TokenNode>,
)
    requires
        sep_segments_match(segs, ts),
        three.len() == 3,
        is_joint_punct_ch(three[0], ':'),
        three[1] == (TokenNode::Punct { ch: ':', joint: false }),
        is_ident_text(three[2], seg),
    ensures
        sep_segments_match(segs.push(seg), ts + three),
    decreases segs.len(),
{
    if segs.len() == 0 {
        assert(ts + three =~= three);
        assert(segs.push(seg).skip(1) =~= Seq::<Seq<char>>::empty());
        assert((ts + three).skip(3) =~= Seq::<TokenNode>::empty());
        assert((ts + three)[0] == three[0]);
        assert((ts + three)[1] == three[1]);
        assert((ts + three)[2] == three[2]);
        assert(segs.push(seg)[0] == seg);
        assert(sep_segments_match(Seq::<Seq<char>>::empty(), Seq::<TokenNode>::empty()));
        assert(sep_segments_match(segs.push(seg).skip(1), (ts + three).skip(3)));
        assert(sep_segments_match(segs.push(seg), ts + three));
    } else {
        lemma_sep_append_one(segs.skip(1), ts.skip(3), seg, three);
        assert(segs.push(seg).skip(1) =~= segs.skip(1).push(seg));
        assert((ts + three).skip(3) =~= ts.skip(3) + three);
        assert((ts + three).len() >= 3);
        assert((ts + three)[0] == ts[0]);
        assert((ts + three)[1] == ts[1]);
        assert((ts + three)[2] == ts[2]);
        assert(sep_segments_match(segs.push(seg).skip(1), (ts + three).skip(3)));
        assert(segs.push(seg)[0] == segs[0]);
        assert(sep_segments_match(segs.push(seg), ts + three));
    }
}

/// The tokens of a `::`-prefixed segment sequence display as ` :: ` before
/// each segment text.
proof fn lemma_sep_display(segs: Seq<Seq<char>>, ts: Seq<TokenNode>)
    requires
        sep_segments_match(segs, ts),
    ensures
        crate::tokens::spec_stream_display_from(ts, false) == spec_render_tail(segs),
    decreases segs.len(),
{
    reveal_strlit(" ");
    reveal_strlit(":");
    reveal_strlit(" :: ");
    if segs.len() == 0 {
        assert(crate::tokens::spec_stream_display_from(ts, false) =~= spec_render_tail(segs));
    } else {
        lemma_sep_display(segs.skip(1), ts.skip(3));
        assert(ts.skip(1)[0] == ts[1]);
        assert(ts.skip(2)[0] == ts[2]);
        assert(ts.skip(1).skip(1) =~= ts.skip(2));
        assert(ts.skip(2).skip(1) =~= ts.skip(3));
        assert(crate::tokens::spec_token_display(ts[0]) == seq![':']);
        assert(crate::tokens::spec_token_display(ts[1]) == seq![':']);
        assert(crate::tokens::spec_token_display(ts[2]) == segs[0]);
        assert(crate::tokens::tok_is_joint(ts[0]));
        assert(!crate::tokens::tok_is_joint(ts[1]));
        assert(!crate::tokens::tok_is_joint(ts[2]));
        let f1 = crate::tokens::spec_stream_display_from(ts.skip(1), true);
        let f2 = crate::tokens::spec_stream_display_from(ts.skip(2), false);
        let f3 = crate::tokens::spec_stream_display_from(ts.skip(3), false);
        assert(crate::tokens::spec_stream_display_from(ts, false) == " "@ + seq![':'] + f1);
        assert(f1 == Seq::<char>::empty() + seq![':'] + f2);
        assert(f2 == " "@ + segs[0] + f3);
        assert(crate::tokens::spec_stream_display_from(ts, false) =~= " :: "@ + segs[0] + f3);
        assert(crate::tokens::spec_stream_display_from(ts, false) =~= spec_render_tail(segs));
    }
}

/// The display law of a module prefix: the text it renders to and the
/// display of its token spelling agree.
pub proof fn lemma_prefix_display(segs: Seq<Seq<char>>, leading: bool, ts: Seq<TokenNode>)
    requires
        module_prefix_match(segs, leading, ts),
    ensures
        crate::tokens::spec_stream_display(ts) == spec_render(segs, leading),
{
    reveal_strlit(" ");
    reveal_strlit(":");
    reveal_strlit(":: ");
    if segs.len() == 0 {
        assert(crate::tokens::spec_stream_display(ts) =~= spec_render(segs, leading));
    } else if leading {
        lemma_sep_display(segs.skip(1), ts.skip(3));
        assert(ts.skip(1)[0] == ts[1]);
        assert(ts.skip(2)[0] == ts[2]);
        assert(ts.skip(1).skip(1) =~= ts.skip(2));
        assert(ts.skip(2).skip(1) =~= ts.skip(3));
        assert(crate::tokens::spec_token_display(ts[0]) == seq![':']);
        assert(crate::tokens::spec_token_display(ts[1]) == seq![':']);
        assert(crate::tokens::spec_token_display(ts[2]) == segs[0]);
        assert(crate::tokens::tok_is_joint(ts[0]));
        assert(!crate::tokens::tok_is_joint(ts[1]));
        assert(!crate::tokens::tok_is_joint(ts[2]));
        let f1 = crate::tokens::spec_stream_display_from(ts.skip(1), true);
        let f2 = crate::tokens::spec_stream_display_from(ts.skip(2), false);
        let f3 = crate::tokens::spec_stream_display_from(ts.skip(3), false);
        assert(crate::tokens::spec_stream_display(ts) == seq![':'] + f1);
        assert(f1 == Seq::<char>::empty() + seq![':'] + f2);
        assert(f2 == " "@ + segs[0] + f3);
        assert(crate::tokens::spec_stream_display(ts) =~= ":: "@ + segs[0] + spec_render_tail(
            segs.skip(1),
        ));
        assert(crate::tokens::spec_stream_display(ts) =~= spec_render(segs, leading));
    } else {
        lemma_sep_display(segs.skip(1), ts.skip(1));
        assert(crate::tokens::spec_token_display(ts[0]) == segs[0]);
        assert(!crate::tokens::tok_is_joint(ts[0]));
        assert(crate::tokens::spec_stream_display(ts) =~= segs[0] + spec_render_tail(
            segs.skip(1),
        ));
        assert(crate::tokens::spec_stream_display(ts) =~= spec_render(segs, leading));
    }
}

impl<'a, const LEN: usize> ModulePrefix<'a, LEN> {
    /// The segment texts of this prefix.
    pub closed spec fn spec_segments(self) -> Seq<Seq<char>> {
        self.path@.map_values(|s: &str| s@)
    }

    /// Whether the leading separator is kept.
    pub closed spec fn spec_leading(self) -> bool {
        self.leading_sep
    }

    /// Create a new `ModulePrefix` from an array of segments. The leading
    /// separator is kept by default.
    pub fn new(segments: [&'a str; LEN]) -> (r: Self)
        ensures
            r.spec_segments() == segments@.map_values(|s: &str| s@),
            r.spec_leading(),
    {
        ModulePrefix { path: segments, leading_sep: true }
    }

    /// `true` (the default) keeps the leading `::`, `false` omits it.
    pub fn with_leading_sep(self, leading_sep: bool) -> (r: Self)
        ensures
            r.spec_segments() == self.spec_segments(),
            r.spec_leading() == leading_sep,
    {
        ModulePrefix { leading_sep, ..self }
    }

    /// The segment at `index`.
    pub fn segment_at(&self, index: usize) -> (r: &'a str)
        requires
            index < LEN,
        ensures
            r@ == self.spec_segments()[index as int],
    {
        self.path[index]
    }

    /// Render this prefix as display text: segments joined by ` :: `, with
    /// a leading `:: ` when the leading separator is kept.
    pub fn render(&self) -> (r: String)
        ensures
            r@ == spec_render(self.spec_segments(), self.spec_leading()),
    {
        let ghost segs = self.spec_segments();
        let mut out = String::new();
        if LEN == 0 {
            return out;
        }
        if self.leading_sep {
            out.append(":: ");
        }
        out.append(self.path[0]);
        proof {
            assert(out@ + spec_render_tail(segs.skip(1)) =~= spec_render(segs, self.leading_sep));
        }
        let mut i: usize = 1;
        while i < LEN
            invariant
                1 <= i <= LEN,
                LEN == segs.len(),
                segs == self.spec_segments(),
                out@ + spec_render_tail(segs.skip(i as int)) =~= spec_render(
                    segs,
                    self.spec_leading(),
                ),
            decreases LEN - i,
    {
            let ghost out_before = out@;
            out.append(" :: ");
            out.append(self.path[i]);
            proof {
                assert(segs.skip(i as int).skip(1) =~= segs.skip(i + 1));
                assert(spec_render_tail(segs.skip(i as int)) == " :: "@ + segs[i as int]
                    + spec_render_tail(segs.skip(i + 1)));
                assert(out@ + spec_render_tail(segs.skip(i + 1)) =~= out_before + spec_render_tail(
                    segs.skip(i as int),
                ));
            }
            i = i + 1;
        }
        proof {
            assert(segs.skip(LEN as int).len() == 0);
            assert(out@ + spec_render_tail(segs.skip(LEN as int)) =~= out@);
        }
        out
    }

    /// Chain the path with another tokenisable segment.
    pub fn chain<T: ToTokenNodes>(self, next_segment: T) -> (r: Chain<Self, T>)
        ensures
            r.spec_a() == self,
            r.spec_b() == next_segment,
    {
        Chain { a: self, b: next_segment }
    }
}

impl<A, B> Chain<A, B> {
    /// The leading part of the chain.
    pub closed spec fn spec_a(self) -> A {
        self.a
    }

    /// The trailing part of the chain.
    pub closed spec fn spec_b(self) -> B {
        self.b
    }

    /// Chain the path further.
    pub fn chain<C: ToTokenNodes>(self, next_segment: C) -> (r: Chain<Self, C>)
        ensures
            r.spec_a() == self,
            r.spec_b() == next_segment,
    {
        Chain { a: self, b: next_segment }
    }
}

impl<'a, const LEN: usize> ToTokenNodes for ModulePrefix<'a, LEN> {
    open spec fn tokens_match(self, ts: Seq<TokenNode>) -> bool {
        module_prefix_match(self.spec_segments(), self.spec_leading(), ts)
    }

    fn to_tokens(self, tokens: &mut Vec<TokenNode>) {
        let ghost segs = self.spec_segments();
        let ghost base = old(tokens)@.len() as int;
        if LEN == 0 {
            proof {
                assert(tokens@.take(base) =~= tokens@);
                assert(tokens@.skip(base).len() == 0);
            }
            return ;
        }
        let mut i: usize = 0;
        let ghost seg_base = base;
        let mut seg_start: usize = 0;
        if !self.leading_sep {
            tokens.push(TokenNode::Ident { text: self.path[0].to_owned() });
            i = 1;
            seg_start = 1;
        }
        proof {
            assert(tokens@.take(base) =~= old(tokens)@);
            assert(sep_segments_match(segs.skip(seg_start as int).take(0), tokens@.skip(
                base + seg_start as int,
            ).take(0)));
            assert(segs.skip(seg_start as int).take(i - seg_start) =~= segs.skip(
                seg_start as int,
            ).take(0));
            assert(tokens@.skip(base + seg_start as int) =~= tokens@.skip(base + seg_start as int)
                .take(0));
        }
        while i < LEN
            invariant
                seg_start <= i <= LEN,
                seg_start == (if self.spec_leading() {
                    0int
                } else {
                    1int
                }),
                LEN == segs.len(),
                LEN >= 1,
                segs == self.spec_segments(),
                base == old(tokens)@.len(),
                tokens@.len() == base + seg_start + 3 * (i - seg_start),
                tokens@.take(base) == old(tokens)@,
                !self.spec_leading() ==> is_ident_text(tokens@[base], segs[0]),
                sep_segments_match(
                    segs.skip(seg_start as int).take(i - seg_start),
                    tokens@.skip(base + seg_start as int),
                ),
            decreases LEN - i,
        {
            let ghost appended_before = tokens@.skip(base + seg_start as int);
            tokens.push(TokenNode::Punct { ch: ':', joint: true });
            tokens.push(TokenNode::Punct { ch: ':', joint: false });
            tokens.push(TokenNode::Ident { text: self.path[i].to_owned() });
            proof {
                let three = tokens@.skip(tokens@.len() - 3);
                assert(three.len() == 3);
                assert(is_joint_punct_ch(three[0], ':'));
                assert(three[1] == (TokenNode::Punct { ch: ':', joint: false }));
                assert(is_ident_text(three[2], segs[i as int]));
                lemma_sep_append_one(
                    segs.skip(seg_start as int).take(i - seg_start),
                    appended_before,
                    segs[i as int],
                    three,
                );
                assert(segs.skip(seg_start as int).take(i - seg_start).push(segs[i as int]) =~= segs
                    .skip(seg_start as int).take(i + 1 - seg_start));
                assert(appended_before + three =~= tokens@.skip(base + seg_start as int));
                assert(tokens@.take(base) =~= old(tokens)@);
            }
            i = i + 1;
        }
        proof {
            assert(segs.skip(seg_start as int).take(LEN - seg_start) =~= segs.skip(
                seg_start as int,
            ));
            if self.spec_leading() {
                assert(segs.skip(0) =~= segs);
                assert(tokens@.skip(base) == tokens@.skip(base + seg_start as int));
                assert(sep_segments_match(segs, tokens@.skip(base)));
            } else {
                assert(tokens@.skip(base).len() >= 1);
                assert(tokens@.skip(base)[0] == tokens@[base]);
                assert(tokens@.skip(base).skip(1) =~= tokens@.skip(base + 1));
                assert(sep_segments_match(segs.skip(1), tokens@.skip(base).skip(1)));
            }
            assert(module_prefix_match(segs, self.spec_leading(), tokens@.skip(base)));
        }
    }
}

impl<A: ToTokenNodes, B: ToTokenNodes> ToTokenNodes for Chain<A, B> {
    open spec fn tokens_match(self, ts: Seq<TokenNode>) -> bool {
        exists|i: int|
            {
                &&& 0 <= i
                &&& i + 2 <= ts.len()
                &&& self.spec_a().tokens_match(ts.take(i))
                &&& is_joint_punct_ch(ts[i], ':')
                &&& ts[i + 1] == (TokenNode::Punct { ch: ':', joint: false })
                &&& self.spec_b().tokens_match(ts.skip(i + 2))
            }
    }

    fn to_tokens(self, tokens: &mut Vec<TokenNode>) {
        let ghost base = old(tokens)@.len() as int;
        let ghost me = self;
        let Chain { a, b } = self;
        a.to_tokens(tokens);
        let ghost ta = tokens@;
        let ghost mid = tokens@.len() as int;
        tokens.push(TokenNode::Punct { ch: ':', joint: true });
        tokens.push(TokenNode::Punct { ch: ':', joint: false });
        let ghost tp = tokens@;
        b.to_tokens(tokens);
        proof {
            let ts = tokens@.skip(base);
            let i = mid - base;
            assert(tokens@.take(mid + 2) == tp);
            assert(tokens@.take(base) =~= old(tokens)@);
            assert forall|j: int| 0 <= j < i implies ts.take(i)[j] == ta.skip(base)[j] by {
                assert(ts.take(i)[j] == tokens@[base + j]);
                assert(tokens@[base + j] == tokens@.take(mid + 2)[base + j]);
                assert(tp[base + j] == ta[base + j]);
                assert(ta.skip(base)[j] == ta[base + j]);
            }
            assert(ts.take(i) =~= ta.skip(base));
            assert(me.spec_a().tokens_match(ts.take(i)));
            assert(ts[i] == tokens@[mid]);
            assert(tokens@[mid] == tp[mid]);
            assert(ts[i + 1] == tokens@[mid + 1]);
            assert(tokens@[mid + 1] == tp[mid + 1]);
            assert(is_joint_punct_ch(ts[i], ':'));
            assert(ts[i + 1] == (TokenNode::Punct { ch: ':', joint: false }));
            assert(ts.skip(i + 2) =~= tokens@.skip(mid + 2));
            assert(me.spec_b().tokens_match(ts.skip(i + 2)));
        }
    }
}

} // verus!
