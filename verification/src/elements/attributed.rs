use vstd::prelude::*;

use crate::errors::ParseError;
use crate::elements::module_prefix::{module_prefix_match, sep_segments_match};
use crate::meta::{spec_eq_is_compound, spec_parse_path, string_views, Attr, AttrMetaKind};
use crate::tokens::{
    group_contents, is_group_with, is_ident_text, is_punct_ch, is_visible_group, Delim, TokenNode,
};

verus! {

/// Marker for parsing outer attributes (`#[...]`).
#[derive(Debug)]
pub struct Outer;

/// Marker for parsing inner attributes (`#![...]`).
#[derive(Debug)]
pub struct Inner;

/// Something that has attributes: the attributes collected from the head
/// of the stream, and the data following them.
#[derive(Debug)]
pub struct Attributed<K> {
    /// The collected attributes.
    pub attributes: Vec<Attr>,
    /// The tokens following the attributes.
    pub data: Vec<TokenNode>,
    /// Ties the value to its parsing style.
    pub kind: core::marker::PhantomData<K>,
}

/// [`Attributed`] that collects inner attributes.
pub type AttributedInner = Attributed<Inner>;

/// `a` is the attribute spelled by one bracket group's contents: a path,
/// then nothing, a value after `=`, or one argument group. Tokens after
/// the meta are rejected.
pub open spec fn attr_from_contents(contents: Seq<TokenNode>, inner: bool, a: Attr) -> bool {
    &&& a.inner == inner
    &&& (spec_parse_path(contents) matches Ok((pv, rest)) && {
        &&& a.path@ == pv
        &&& (if rest.len() > 0 && is_visible_group(rest[0]) {
            rest.len() == 1 && (a.meta matches AttrMetaKind::List(l) && l@ == group_contents(
                rest[0],
            ))
        } else if rest.len() > 0 && is_punct_ch(rest[0], '=') && !spec_eq_is_compound(rest) {
            rest.len() >= 2 && (a.meta matches AttrMetaKind::NameValue(v) && v@ == rest.skip(1))
        } else {
            rest.len() == 0 && a.meta is Path
        })
    })
}

/// Whether one bracket group's contents spell an attribute.
pub open spec fn attr_contents_ok(contents: Seq<TokenNode>) -> bool {
    spec_parse_path(contents) matches Ok((_, rest)) && (if rest.len() > 0 && is_visible_group(
        rest[0],
    ) {
        rest.len() == 1
    } else if rest.len() > 0 && is_punct_ch(rest[0], '=') && !spec_eq_is_compound(rest) {
        rest.len() >= 2
    } else {
        rest.len() == 0
    })
}

/// The diagnostic for bracket-group contents that spell no attribute.
pub open spec fn attr_contents_err(contents: Seq<TokenNode>) -> Seq<char> {
    match spec_parse_path(contents) {
        Err(m) => m,
        Ok((_, rest)) => if rest.len() > 0 && is_punct_ch(rest[0], '=') && !spec_eq_is_compound(
            rest,
        ) && rest.len() < 2 {
            "expected an expression"@
        } else {
            "unexpected token"@
        },
    }
}

/// Does the stream head announce another attribute of the given style?
/// An outer attribute starts `#`, an inner one `#!`.
pub open spec fn starts_attr(s: Seq<TokenNode>, inner: bool) -> bool {
    if inner {
        s.len() >= 2 && is_punct_ch(s[0], '#') && is_punct_ch(s[1], '!')
    } else {
        s.len() >= 1 && is_punct_ch(s[0], '#')
    }
}

/// The bracket-group position of the announced attribute.
pub open spec fn attr_group_at(inner: bool) -> int {
    if inner {
        2int
    } else {
        1int
    }
}

/// Whether the whole attribute prefix of `s` scans: each announced
/// attribute carries a bracket group whose contents spell an attribute.
pub open spec fn attrs_scan_ok(s: Seq<TokenNode>, inner: bool) -> bool
    decreases s.len(),
{
    if !starts_attr(s, inner) {
        true
    } else {
        let at = attr_group_at(inner);
        &&& s.len() > at
        &&& is_group_with(s[at], Delim::Bracket)
        &&& attr_contents_ok(group_contents(s[at]))
        &&& attrs_scan_ok(s.skip(at + 1), inner)
    }
}

/// The diagnostic for an attribute prefix that does not scan.
pub open spec fn attrs_scan_err(s: Seq<TokenNode>, inner: bool) -> Seq<char>
    decreases s.len(),
{
    if !starts_attr(s, inner) {
        Seq::empty()
    } else {
        let at = attr_group_at(inner);
        if !(s.len() > at && is_group_with(s[at], Delim::Bracket)) {
            "expected square brackets"@
        } else if !attr_contents_ok(group_contents(s[at])) {
            attr_contents_err(group_contents(s[at]))
        } else {
            attrs_scan_err(s.skip(at + 1), inner)
        }
    }
}

/// `attrs` and `rest` are the attributes and the remainder that scanning
/// the attribute prefix of `s` leaves.
pub open spec fn attrs_scan_val(
    s: Seq<TokenNode>,
    inner: bool,
    attrs: Seq<Attr>,
    rest: Seq<TokenNode>,
) -> bool
    decreases s.len(),
{
    if !starts_attr(s, inner) {
        attrs.len() == 0 && rest == s
    } else {
        let at = attr_group_at(inner);
        &&& s.len() > at
        &&& is_group_with(s[at], Delim::Bracket)
        &&& attrs.len() > 0
        &&& attr_from_contents(group_contents(s[at]), inner, attrs[0])
        &&& attrs_scan_val(s.skip(at + 1), inner, attrs.skip(1), rest)
    }
}

/// Parse one attribute from a bracket group's contents.
fn attr_from_group(contents: Vec<TokenNode>, inner: bool) -> (r: Result<Attr, ParseError>)
    ensures
        r is Ok <==> attr_contents_ok(contents@),
        (match r {
            Ok(a) => attr_from_contents(contents@, inner, a),
            Err(e) => e@ == attr_contents_err(contents@),
        }),
{
    let (path, rest) = match crate::meta::parse_path(contents) {
        Ok(p) => p,
        Err(e) => {
            return Err(e);
        },
    };
    let mut rest = rest;
    if rest.len() > 0 && rest[0].is_visible_group_node() {
        if rest.len() != 1 {
            return Err(ParseError::new("unexpected token"));
        }
        let head = rest.remove(0);
        match head {
            TokenNode::Group { tokens, .. } => Ok(
                Attr { inner, path, meta: AttrMetaKind::List(tokens) },
            ),
            _ => Err(ParseError::new("unexpected token")),
        }
    } else if rest.len() > 0 && rest[0].is_punct('=') && !(rest.len() >= 2 && rest[0].is_joint_punct(
        '=',
    ) && (rest[1].is_punct('=') || rest[1].is_punct('>'))) {
        if rest.len() < 2 {
            return Err(ParseError::new("expected an expression"));
        }
        rest.remove(0);
        Ok(Attr { inner, path, meta: AttrMetaKind::NameValue(rest) })
    } else if rest.len() == 0 {
        Ok(Attr { inner, path, meta: AttrMetaKind::Path })
    } else {
        Err(ParseError::new("unexpected token"))
    }
}

/// Scan the attribute prefix of `tokens`: the parsed attributes and the
/// remainder.
fn scan_attrs(tokens: Vec<TokenNode>, inner: bool) -> (r: Result<
    (Vec<Attr>, Vec<TokenNode>),
    ParseError,
>)
    ensures
        r is Ok <==> attrs_scan_ok(tokens@, inner),
        (match r {
            Ok(p) => attrs_scan_val(tokens@, inner, p.0@, p.1@),
            Err(e) => e@ == attrs_scan_err(tokens@, inner),
        }),
    decreases tokens@.len(),
{
    let ghost s = tokens@;
    let starts = if inner {
        tokens.len() >= 2 && tokens[0].is_punct('#') && tokens[1].is_punct('!')
    } else {
        tokens.len() >= 1 && tokens[0].is_punct('#')
    };
    if !starts {
        let attrs: Vec<Attr> = Vec::new();
        return Ok((attrs, tokens));
    }
    let mut tokens = tokens;
    tokens.remove(0);
    if inner {
        tokens.remove(0);
    }
    proof {
        assert(tokens@ =~= s.skip(attr_group_at(inner)));
    }
    if tokens.len() == 0 || !tokens[0].is_group(Delim::Bracket) {
        return Err(ParseError::new("expected square brackets"));
    }
    let head = tokens.remove(0);
    proof {
        assert(tokens@ =~= s.skip(attr_group_at(inner) + 1));
    }
    let contents = match head {
        TokenNode::Group { tokens: contents, .. } => contents,
        _ => {
            return Err(ParseError::new("expected square brackets"));
        },
    };
    let attr = match attr_from_group(contents, inner) {
        Ok(a) => a,
        Err(e) => {
            return Err(e);
        },
    };
    match scan_attrs(tokens, inner) {
        Ok((tail, rest)) => {
            let ghost tail_view = tail@;
            let mut attrs = tail;
            attrs.insert(0, attr);
            proof {
                assert(attrs@.skip(1) =~= tail_view);
            }
            Ok((attrs, rest))
        },
        Err(e) => Err(e),
    }
}

impl crate::elements::to_tokens::ToTokenNodes for crate::meta::AttrPath {
    open spec fn tokens_match(self, ts: Seq<TokenNode>) -> bool {
        crate::elements::module_prefix::module_prefix_match(self@.1, self.leading, ts)
    }

    #[verifier::loop_isolation(false)]
    fn to_tokens(self, tokens: &mut Vec<TokenNode>) {
        let ghost me = self;
        let ghost base = old(tokens)@.len() as int;
        let crate::meta::AttrPath { leading, segments } = self;
        let ghost segs = me@.1;
        let mut segments = segments;
        if segments.len() == 0 {
            proof {
                assert(tokens@.take(base) =~= tokens@);
                assert(tokens@.skip(base).len() == 0);
            }
            return ;
        }
        let mut k: usize = 0;
        let ghost seg_start: int = if leading {
            0int
        } else {
            1int
        };
        let ghost off: int = if leading {
            0int
        } else {
            1int
        };
        if !leading {
            let ghost before = segments@;
            let first = segments.remove(0);
            proof {
                assert(first@ == segs[0]);
                assert(string_views(segments@) =~= segs.skip(1));
            }
            tokens.push(TokenNode::Ident { text: first });
            k = 1;
        }
        proof {
            assert(sep_segments_match(
                segs.skip(seg_start).take(k - seg_start),
                tokens@.skip(base + off).take(0),
            ));
            assert(tokens@.skip(base + off) =~= tokens@.skip(base + off).take(0));
            if leading {
                assert(string_views(segments@) =~= segs.skip(k as int));
            }
        }
        while segments.len() > 0
            invariant
                seg_start <= k as int <= segs.len(),
                segs.len() == me@.1.len(),
                segs == me@.1,
                string_views(segments@) == segs.skip(k as int),
                segments@.len() == segs.len() - k,
                tokens@.len() == base + off + 3 * (k - seg_start),
                tokens@.take(base) == old(tokens)@,
                !leading ==> (tokens@.len() > base && is_ident_text(tokens@[base], segs[0])),
                sep_segments_match(
                    segs.skip(seg_start).take(k - seg_start),
                    tokens@.skip(base + off),
                ),
            decreases segments@.len(),
        {
            let ghost appended_before = tokens@.skip(base + off);
            let ghost rem_before = segments@;
            let seg = segments.remove(0);
            proof {
                assert(seg@ == string_views(rem_before)[0]);
                assert(seg@ == segs.skip(k as int)[0]);
                assert(seg@ == segs[k as int]);
                assert(segments@ =~= rem_before.skip(1));
                assert forall|j: int| 0 <= j < segments@.len() implies string_views(segments@)[j]
                    == segs.skip(k + 1)[j] by {
                    assert(string_views(segments@)[j] == segments@[j]@);
                    assert(segments@[j] == rem_before[j + 1]);
                    assert(string_views(rem_before)[j + 1] == rem_before[j + 1]@);
                    assert(segs.skip(k as int)[j + 1] == segs[k + 1 + j]);
                }
                assert(string_views(segments@) =~= segs.skip(k + 1));
            }
            tokens.push(TokenNode::Punct { ch: ':', joint: true });
            tokens.push(TokenNode::Punct { ch: ':', joint: false });
            tokens.push(TokenNode::Ident { text: seg });
            proof {
                let three = tokens@.skip(tokens@.len() - 3);
                assert(three.len() == 3);
                assert(crate::tokens::is_joint_punct_ch(three[0], ':'));
                assert(three[1] == (TokenNode::Punct { ch: ':', joint: false }));
                assert(is_ident_text(three[2], segs[k as int]));
                crate::elements::module_prefix::lemma_sep_append_one(
                    segs.skip(seg_start).take(k - seg_start),
                    appended_before,
                    segs[k as int],
                    three,
                );
                assert(segs.skip(seg_start).take(k - seg_start).push(segs[k as int]) =~= segs.skip(
                    seg_start,
                ).take(k + 1 - seg_start));
                assert(appended_before + three =~= tokens@.skip(base + off));
                assert(tokens@.take(base) =~= old(tokens)@);
            }
            k = k + 1;
        }
        proof {
            assert(segs.skip(seg_start).take(segs.len() - seg_start) =~= segs.skip(seg_start));
            if leading {
                assert(tokens@.skip(base) == tokens@.skip(base + off));
                assert(sep_segments_match(segs, tokens@.skip(base)));
            } else {
                assert(tokens@.skip(base).len() >= 1);
                assert(tokens@.skip(base)[0] == tokens@[base]);
                assert(tokens@.skip(base).skip(1) =~= tokens@.skip(base + 1));
                assert(sep_segments_match(segs.skip(1), tokens@.skip(base).skip(1)));
            }
            assert(crate::elements::module_prefix::module_prefix_match(
                segs,
                me.leading,
                tokens@.skip(base),
            ));
        }
    }
}

/// `ts` spells one attribute: `#`, a `!` for the inner style, and a
/// bracket group holding the path and the meta.
pub open spec fn attr_spelling(a: Attr, ts: Seq<TokenNode>) -> bool {
    &&& ts.len() == (if a.inner {
        3int
    } else {
        2int
    })
    &&& ts[0] == (TokenNode::Punct { ch: '#', joint: false })
    &&& (a.inner ==> ts[1] == (TokenNode::Punct { ch: '!', joint: false }))
    &&& (ts.last() matches TokenNode::Group { delim, tokens: body } && delim is Bracket
        && attr_body_spelling(a, body@))
}

/// `body` spells the attribute's path followed by its meta: nothing for a
/// bare path, `=` and the value tokens for a name-value, one parenthesised
/// group for an argument list.
pub open spec fn attr_body_spelling(a: Attr, body: Seq<TokenNode>) -> bool {
    exists|i: int|
        {
            &&& 0 <= i <= body.len()
            &&& crate::elements::module_prefix::module_prefix_match(
                a.path@.1,
                a.path.leading,
                body.take(i),
            )
            &&& (match a.meta {
                AttrMetaKind::Path => i == body.len(),
                AttrMetaKind::NameValue(v) => {
                    &&& i < body.len()
                    &&& body[i] == (TokenNode::Punct { ch: '=', joint: false })
                    &&& body.skip(i + 1) == v@
                },
                AttrMetaKind::List(l) => {
                    &&& i + 1 == body.len()
                    &&& (body[i] matches TokenNode::Group { delim, tokens: args } && delim is Paren
                        && args@ == l@)
                },
            })
        }
}

impl crate::elements::to_tokens::ToTokenNodes for Attr {
    open spec fn tokens_match(self, ts: Seq<TokenNode>) -> bool {
        attr_spelling(self, ts)
    }

    fn to_tokens(self, tokens: &mut Vec<TokenNode>) {
        let ghost me = self;
        let ghost base = old(tokens)@.len() as int;
        let Attr { inner, path, meta } = self;
        tokens.push(TokenNode::Punct { ch: '#', joint: false });
        if inner {
            tokens.push(TokenNode::Punct { ch: '!', joint: false });
        }
        let mut body: Vec<TokenNode> = Vec::new();
        let ghost gpath = path;
        crate::elements::to_tokens::ToTokenNodes::to_tokens(path, &mut body);
        let ghost body_after_path = body@;
        let ghost plen = body@.len() as int;
        proof {
            assert(body_after_path.skip(0) =~= body_after_path);
            assert(module_prefix_match(gpath@.1, gpath.leading, body_after_path));
        }
        match meta {
            AttrMetaKind::Path => {},
            AttrMetaKind::NameValue(v) => {
                let ghost gv = v;
                body.push(TokenNode::Punct { ch: '=', joint: false });
                let mut v = v;
                body.append(&mut v);
                proof {
                    assert(body@.take(plen) =~= body@.subrange(0, plen));
                    assert(body@.skip(plen + 1) =~= gv@);
                }
            },
            AttrMetaKind::List(l) => {
                body.push(TokenNode::Group { delim: Delim::Paren, tokens: l });
            },
        }
        proof {
            assert(body@.take(plen) =~= body_after_path);
            assert(module_prefix_match(me.path@.1, me.path.leading, body@.take(plen)));
            match me.meta {
                AttrMetaKind::Path => {
                    assert(plen == body@.len());
                },
                AttrMetaKind::NameValue(v) => {
                    assert(body@[plen] == (TokenNode::Punct { ch: '=', joint: false }));
                    assert(body@.skip(plen + 1) =~= v@);
                },
                AttrMetaKind::List(l) => {
                    assert(plen + 1 == body@.len());
                    assert(body@[plen] matches TokenNode::Group { delim, tokens: args }
                        && delim is Paren && args@ == l@);
                },
            }
            assert(attr_body_spelling(me, body@));
        }
        tokens.push(TokenNode::Group { delim: Delim::Bracket, tokens: body });
        proof {
            assert(tokens@.take(base) =~= old(tokens)@);
            let ts = tokens@.skip(base);
            assert(ts.last() == tokens@.last());
            assert(attr_spelling(me, ts));
        }
    }
}

/// `ts` spells the attributes in order, one spelling after the other.
pub open spec fn attrs_spelling(attrs: Seq<Attr>, ts: Seq<TokenNode>) -> bool
    decreases attrs.len(),
{
    if attrs.len() == 0 {
        ts.len() == 0
    } else {
        exists|i: int|
            {
                &&& 0 <= i <= ts.len()
                &&& attr_spelling(attrs[0], ts.take(i))
                &&& attrs_spelling(attrs.skip(1), ts.skip(i))
            }
    }
}

/// Appending one more attribute's spelling extends a matching sequence.
proof fn lemma_attrs_spelling_push(attrs: Seq<Attr>, ts: Seq<TokenNode>, a: Attr, ta: Seq<TokenNode>)
    requires
        attrs_spelling(attrs, ts),
        attr_spelling(a, ta),
    ensures
        attrs_spelling(attrs.push(a), ts + ta),
    decreases attrs.len(),
{
    if attrs.len() == 0 {
        assert(ts + ta =~= ta);
        assert((ts + ta).take(ta.len() as int) =~= ta);
        assert((ts + ta).skip(ta.len() as int) =~= Seq::<TokenNode>::empty());
        assert(attrs.push(a).skip(1) =~= Seq::<Attr>::empty());
        assert(attrs.push(a)[0] == a);
        assert(attr_spelling(attrs.push(a)[0], (ts + ta).take(ta.len() as int)));
        assert(attrs_spelling(attrs.push(a).skip(1), (ts + ta).skip(ta.len() as int)));
        assert(attrs_spelling(attrs.push(a), ts + ta));
    } else {
        let i = choose|i: int|
            0 <= i <= ts.len() && attr_spelling(attrs[0], ts.take(i)) && attrs_spelling(
                attrs.skip(1),
                ts.skip(i),
            );
        lemma_attrs_spelling_push(attrs.skip(1), ts.skip(i), a, ta);
        assert(attrs.push(a).skip(1) =~= attrs.skip(1).push(a));
        assert((ts + ta).take(i) =~= ts.take(i));
        assert((ts + ta).skip(i) =~= ts.skip(i) + ta);
        assert(attrs.push(a)[0] == attrs[0]);
        assert(attr_spelling(attrs.push(a)[0], (ts + ta).take(i)));
        assert(attrs_spelling(attrs.push(a).skip(1), (ts + ta).skip(i)));
        assert(attrs_spelling(attrs.push(a), ts + ta));
    }
}

impl<K> crate::elements::to_tokens::ToTokenNodes for Attributed<K> {
    open spec fn tokens_match(self, ts: Seq<TokenNode>) -> bool {
        exists|i: int|
            {
                &&& 0 <= i <= ts.len()
                &&& attrs_spelling(self.attributes@, ts.take(i))
                &&& ts.skip(i) == self.data@
            }
    }

    #[verifier::loop_isolation(false)]
    fn to_tokens(self, tokens: &mut Vec<TokenNode>) {
        let ghost me = self;
        let ghost base = old(tokens)@.len() as int;
        let Attributed { attributes, data, .. } = self;
        let ghost attrs0 = attributes@;
        let mut attributes = attributes;
        let ghost mut done: int = 0;
        proof {
            assert(attrs0.take(0) =~= Seq::<Attr>::empty());
            assert(tokens@.skip(base).len() == 0);
            assert(attrs_spelling(attrs0.take(done), tokens@.skip(base)));
        }
        while attributes.len() > 0
            invariant
                0 <= done <= attrs0.len(),
                attributes@ == attrs0.skip(done),
                tokens@.len() >= base,
                tokens@.take(base) == old(tokens)@,
                attrs_spelling(attrs0.take(done), tokens@.skip(base)),
            decreases attributes@.len(),
        {
            let ghost spelled_before = tokens@.skip(base);
            let head = attributes.remove(0);
            proof {
                assert(head == attrs0[done]);
                assert(attributes@ =~= attrs0.skip(done + 1));
            }
            let ghost mark = tokens@.len() as int;
            crate::elements::to_tokens::ToTokenNodes::to_tokens(head, tokens);
            proof {
                let ta = tokens@.skip(mark);
                assert(tokens@.take(mark).skip(base) =~= spelled_before);
                assert(tokens@.skip(base) =~= spelled_before + ta);
                lemma_attrs_spelling_push(attrs0.take(done), spelled_before, attrs0[done], ta);
                assert(attrs0.take(done).push(attrs0[done]) =~= attrs0.take(done + 1));
                assert(tokens@.take(base) =~= old(tokens)@);
                done = done + 1;
            }
        }
        let ghost split = tokens@.len() as int - base;
        let ghost pre = tokens@;
        let mut data = data;
        tokens.append(&mut data);
        proof {
            assert(attrs0.take(attrs0.len() as int) =~= attrs0);
            let ts = tokens@.skip(base);
            assert(ts.take(split) =~= pre.skip(base));
            assert(attrs_spelling(me.attributes@, ts.take(split)));
            assert(ts.skip(split) =~= me.data@);
            assert(tokens@.take(base) =~= old(tokens)@);
        }
    }
}

impl Attributed<Outer> {
    /// Parse a stream as outer attributes followed by data.
    pub fn parse_outer(tokens: Vec<TokenNode>) -> (r: Result<Self, ParseError>)
        ensures
            r is Ok <==> attrs_scan_ok(tokens@, false),
            (match r {
                Ok(v) => attrs_scan_val(tokens@, false, v.attributes@, v.data@),
                Err(e) => e@ == attrs_scan_err(tokens@, false),
            }),
    {
        match scan_attrs(tokens, false) {
            Ok((attributes, data)) => Ok(
                Attributed { attributes, data, kind: core::marker::PhantomData },
            ),
            Err(e) => Err(e),
        }
    }
}

impl Attributed<Inner> {
    /// Parse a stream as inner attributes followed by data.
    pub fn parse_inner(tokens: Vec<TokenNode>) -> (r: Result<Self, ParseError>)
        ensures
            r is Ok <==> attrs_scan_ok(tokens@, true),
            (match r {
                Ok(v) => attrs_scan_val(tokens@, true, v.attributes@, v.data@),
                Err(e) => e@ == attrs_scan_err(tokens@, true),
            }),
    {
        match scan_attrs(tokens, true) {
            Ok((attributes, data)) => Ok(
                Attributed { attributes, data, kind: core::marker::PhantomData },
            ),
            Err(e) => Err(e),
        }
    }
}

} // verus!
