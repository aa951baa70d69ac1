use vstd::prelude::*;

use crate::errors::ParseError;
use crate::tokens::{
    group_contents, ident_text_of, is_ident, is_joint_punct_ch, is_punct_ch, is_visible_group,
    TokenNode,
};

verus! {

/// A simple path in attribute position: an optional leading `::` and
/// identifier segments separated by `::`.
#[derive(Debug, PartialEq, Eq)]
pub struct AttrPath {
    /// Whether the path starts with `::`.
    pub leading: bool,
    /// The path segments, in order.
    pub segments: Vec<String>,
}

/// The texts of a sequence of strings.
pub open spec fn string_views(ss: Seq<String>) -> Seq<Seq<char>> {
    ss.map_values(|s: String| s@)
}

impl View for AttrPath {
    type V = (bool, Seq<Seq<char>>);

    open spec fn view(&self) -> (bool, Seq<Seq<char>>) {
        (self.leading, string_views(self.segments@))
    }
}

/// The text of a path after its first segment: `::` before each further
/// segment.
pub open spec fn spec_path_text_tail(segs: Seq<Seq<char>>) -> Seq<char>
    decreases segs.len(),
{
    if segs.len() == 0 {
        Seq::empty()
    } else {
        "::"@ + segs[0] + spec_path_text_tail(segs.skip(1))
    }
}

/// The display text of a path: segments joined by `::`, with a leading
/// `::` when the path keeps one.
pub open spec fn spec_path_text(leading: bool, segs: Seq<Seq<char>>) -> Seq<char> {
    if segs.len() == 0 {
        Seq::empty()
    } else {
        (if leading {
            "::"@
        } else {
            Seq::<char>::empty()
        }) + segs[0] + spec_path_text_tail(segs.skip(1))
    }
}

impl AttrPath {
    /// Does this path consist of exactly the plain identifier `name`?
    pub fn is_ident(&self, name: &str) -> (r: bool)
        ensures
            r == (!self.leading && self.segments@.len() == 1 && self.segments@[0]@ == name@),
    {
        if !self.leading && self.segments.len() == 1 {
            let other = name.to_owned();
            self.segments[0].eq(&other)
        } else {
            false
        }
    }

    /// An equal copy of this path.
    pub fn clone_path(&self) -> (r: AttrPath)
        ensures
            r@ == self@,
    {
        let ghost segs = self@.1;
        let mut segments: Vec<String> = Vec::new();
        let mut i: usize = 0;
        while i < self.segments.len()
            invariant
                i <= self.segments@.len(),
                segs == self@.1,
                segs.len() == self.segments@.len(),
                string_views(segments@) =~= segs.take(i as int),
            decreases self.segments@.len() - i,
        {
            let seg = self.segments[i].clone();
            let ghost before = segments@;
            proof {
                assert(seg@ == string_views(self.segments@)[i as int]);
                assert(seg@ == segs[i as int]);
            }
            segments.push(seg);
            proof {
                before.lemma_push_map_commute(|s: String| s@, segments@[i as int]);
                assert(string_views(segments@) =~= string_views(before).push(seg@));
                assert(segs.take(i as int).push(segs[i as int]) =~= segs.take(i + 1));
                assert(string_views(segments@) =~= segs.take(i + 1));
            }
            i = i + 1;
        }
        proof {
            assert(segs.take(segs.len() as int) =~= segs);
        }
        AttrPath { leading: self.leading, segments }
    }

    /// Render this path as display text: segments joined by `::`.
    pub fn render(&self) -> (r: String)
        ensures
            r@ == spec_path_text(self.leading, self@.1),
    {
        let ghost segs = self@.1;
        let mut out = String::new();
        if self.segments.len() == 0 {
            return out;
        }
        if self.leading {
            out.append("::");
        }
        out.append(self.segments[0].as_str());
        proof {
            assert(out@ + spec_path_text_tail(segs.skip(1)) =~= spec_path_text(self.leading, segs));
        }
        let mut i: usize = 1;
        while i < self.segments.len()
            invariant
                1 <= i <= self.segments@.len(),
                segs.len() == self.segments@.len(),
                segs == self@.1,
                out@ + spec_path_text_tail(segs.skip(i as int)) =~= spec_path_text(
                    self.leading,
                    segs,
                ),
            decreases self.segments@.len() - i,
        {
            let ghost out_before = out@;
            out.append("::");
            out.append(self.segments[i].as_str());
            proof {
                assert(segs.skip(i as int).skip(1) =~= segs.skip(i + 1));
                assert(spec_path_text_tail(segs.skip(i as int)) == "::"@ + segs[i as int]
                    + spec_path_text_tail(segs.skip(i + 1)));
                assert(out@ + spec_path_text_tail(segs.skip(i + 1)) =~= out_before
                    + spec_path_text_tail(segs.skip(i as int)));
            }
            i = i + 1;
        }
        proof {
            assert(segs.skip(segs.len() as int).len() == 0);
            assert(out@ + spec_path_text_tail(segs.skip(segs.len() as int)) =~= out@);
        }
        out
    }
}

/// Does the sequence start with a `::` separator (a jointly spaced colon
/// and a second colon)?
pub open spec fn spec_has_sep(s: Seq<TokenNode>) -> bool {
    s.len() >= 2 && is_joint_punct_ch(s[0], ':') && is_punct_ch(s[1], ':')
}

/// Path segments from the head of `s`: an identifier, then further
/// identifiers after each `::`. Hands back the segments and the tokens that
/// follow the path. `sep_msg` is the diagnostic for a separator that no
/// segment follows.
pub open spec fn spec_segments(s: Seq<TokenNode>, sep_msg: Seq<char>) -> Result<
    (Seq<Seq<char>>, Seq<TokenNode>),
    Seq<char>,
>
    decreases s.len(),
{
    if s.len() == 0 || !is_ident(s[0]) {
        Err("expected identifier"@)
    } else {
        let name = ident_text_of(s[0]);
        if spec_has_sep(s.skip(1)) {
            let after = s.skip(3);
            if after.len() == 0 || !is_ident(after[0]) {
                Err(sep_msg)
            } else {
                match spec_segments(after, sep_msg) {
                    Ok((segs, rest)) => Ok((seq![name] + segs, rest)),
                    Err(m) => Err(m),
                }
            }
        } else {
            Ok((seq![name], s.skip(1)))
        }
    }
}

/// The path at the head of `s`: leading `::` if present, then segments.
pub open spec fn spec_parse_path(s: Seq<TokenNode>) -> Result<
    ((bool, Seq<Seq<char>>), Seq<TokenNode>),
    Seq<char>,
> {
    let leading = spec_has_sep(s);
    let body = if leading {
        s.skip(2)
    } else {
        s
    };
    match spec_segments(body, "expected path segment after `::`"@) {
        Ok((segs, rest)) => Ok(((leading, segs), rest)),
        Err(m) => Err(m),
    }
}

/// Parse the identifier segments of a path from the head of `tokens`.
pub(crate) fn parse_segments(tokens: Vec<TokenNode>, sep_msg: &str) -> (r: Result<
    (Vec<String>, Vec<TokenNode>),
    ParseError,
>)
    ensures
        (match r {
            Ok(p) => spec_segments(tokens@, sep_msg@) == Ok::<_, Seq<char>>(
                (string_views(p.0@), p.1@),
            ),
            Err(e) => spec_segments(tokens@, sep_msg@) == Err::<
                (Seq<Seq<char>>, Seq<TokenNode>),
                _,
            >(e@),
        }),
    decreases tokens@.len(),
{
    let ghost s = tokens@;
    let mut tokens = tokens;
    if tokens.len() == 0 || !tokens[0].is_ident_node() {
        return Err(ParseError::new("expected identifier"));
    }
    let head = tokens.remove(0);
    let name = match head {
        TokenNode::Ident { text } => text,
        _ => {
            return Err(ParseError::new("expected identifier"));
        },
    };
    proof {
        assert(tokens@ =~= s.skip(1));
    }
    if tokens.len() >= 2 && tokens[0].is_joint_punct(':') && tokens[1].is_punct(':') {
        tokens.remove(0);
        tokens.remove(0);
        proof {
            assert(tokens@ =~= s.skip(3));
        }
        if tokens.len() == 0 || !tokens[0].is_ident_node() {
            return Err(ParseError::new(sep_msg));
        }
        match parse_segments(tokens, sep_msg) {
            Ok((tail, rest)) => {
                let ghost tail_view = tail@;
                let mut segments = tail;
                segments.insert(0, name);
                proof {
                    assert(string_views(segments@) =~= seq![ident_text_of(s[0])] + string_views(
                        tail_view,
                    ));
                }
                Ok((segments, rest))
            },
            Err(e) => Err(e),
        }
    } else {
        let mut segments: Vec<String> = Vec::new();
        segments.push(name);
        proof {
            assert(string_views(segments@) =~= seq![ident_text_of(s[0])]);
        }
        Ok((segments, tokens))
    }
}

/// Parse a path from the head of `tokens`, handing back the path and the
/// tokens that follow it.
pub fn parse_path(tokens: Vec<TokenNode>) -> (r: Result<(AttrPath, Vec<TokenNode>), ParseError>)
    ensures
        (match r {
            Ok(p) => spec_parse_path(tokens@) == Ok::<_, Seq<char>>((p.0@, p.1@)),
            Err(e) => spec_parse_path(tokens@) == Err::<
                ((bool, Seq<Seq<char>>), Seq<TokenNode>),
                _,
            >(e@),
        }),
{
    let ghost s = tokens@;
    let mut tokens = tokens;
    let leading = tokens.len() >= 2 && tokens[0].is_joint_punct(':') && tokens[1].is_punct(':');
    if leading {
        tokens.remove(0);
        tokens.remove(0);
        proof {
            assert(tokens@ =~= s.skip(2));
        }
    }
    match parse_segments(tokens, "expected path segment after `::`") {
        Ok((segments, rest)) => Ok((AttrPath { leading, segments }, rest)),
        Err(e) => Err(e),
    }
}

/// The shape of an attribute's meta item.
#[derive(Debug, PartialEq, Eq)]
pub enum AttrMetaKind {
    /// `#[name]`
    Path,
    /// `#[name = value]`: the tokens after the `=`.
    NameValue(Vec<TokenNode>),
    /// `#[name(...)]`: the tokens inside the group.
    List(Vec<TokenNode>),
}

/// The library's form of one attribute: its style, its path and its meta
/// shape.
#[derive(Debug, PartialEq, Eq)]
pub struct Attr {
    /// `true` for an inner attribute (`#![...]`).
    pub inner: bool,
    /// The attribute path.
    pub path: AttrPath,
    /// The meta shape following the path.
    pub meta: AttrMetaKind,
}

/// Is the attribute named by the single plain identifier `name`?
pub open spec fn attr_is_named(a: Attr, name: Seq<char>) -> bool {
    &&& !a.path.leading
    &&& a.path.segments@.len() == 1
    &&& a.path.segments@[0]@ == name
}

impl Attr {
    /// Does this attribute's path consist of exactly the identifier `name`?
    pub fn path_is_ident(&self, name: &str) -> (r: bool)
        ensures
            r == attr_is_named(*self, name@),
    {
        if !self.path.leading && self.path.segments.len() == 1 {
            let other = name.to_owned();
            self.path.segments[0].eq(&other)
        } else {
            false
        }
    }
}

/// The message rejecting an attribute that carries no argument list where
/// one was expected: the attribute is echoed with `(...)` in place of its
/// arguments.
pub open spec fn spec_args_error(a: Attr) -> Seq<char> {
    let style = if a.inner {
        "#!"@
    } else {
        "#"@
    };
    let shape = style + "["@ + spec_path_text(a.path.leading, a.path@.1) + "(...)]"@;
    match a.meta {
        AttrMetaKind::Path => "expected attribute arguments in parentheses: "@ + shape,
        AttrMetaKind::NameValue(_) => "expected parentheses: "@ + shape,
        AttrMetaKind::List(_) => Seq::empty(),
    }
}

impl Attr {
    /// The diagnostic for this attribute when its arguments were expected
    /// in parentheses but it carries none.
    pub fn args_error(&self) -> (r: ParseError)
        requires
            !(self.meta is List),
        ensures
            r@ == spec_args_error(*self),
    {
        let mut out = String::new();
        match &self.meta {
            AttrMetaKind::Path => out.append("expected attribute arguments in parentheses: "),
            AttrMetaKind::NameValue(_) => out.append("expected parentheses: "),
            AttrMetaKind::List(_) => out.append(""),
        }
        if self.inner {
            out.append("#!");
        } else {
            out.append("#");
        }
        out.append("[");
        let path_text = self.path.render();
        out.append(path_text.as_str());
        out.append("(...)]");
        proof {
            assert(out@ =~= spec_args_error(*self));
        }
        ParseError::from_string(out)
    }
}

/// The value part of one option meta.
#[derive(Debug, PartialEq, Eq)]
pub enum MetaValue {
    /// `name = value`: the tokens after the `=`.
    Expr(Vec<TokenNode>),
    /// `name(value)`: the tokens inside the group.
    Stream(Vec<TokenNode>),
}

/// The view of a [`MetaValue`].
pub enum MetaValueV {
    /// See [`MetaValue::Expr`].
    Expr(Seq<TokenNode>),
    /// See [`MetaValue::Stream`].
    Stream(Seq<TokenNode>),
}

impl View for MetaValue {
    type V = MetaValueV;

    open spec fn view(&self) -> MetaValueV {
        match self {
            MetaValue::Expr(v) => MetaValueV::Expr(v@),
            MetaValue::Stream(v) => MetaValueV::Stream(v@),
        }
    }
}

/// The view of an optional meta value.
pub open spec fn opt_meta_view(o: Option<MetaValue>) -> Option<MetaValueV> {
    match o {
        Some(v) => Some(v@),
        None => None,
    }
}

/// Does the sequence start with an `=` that opens a longer operator
/// (`==` or `=>`), which never announces a name-value meta?
pub open spec fn spec_eq_is_compound(s: Seq<TokenNode>) -> bool {
    s.len() >= 2 && is_joint_punct_ch(s[0], '=') && (is_punct_ch(s[1], '=') || is_punct_ch(
        s[1],
        '>',
    ))
}

/// One option meta, parsed from the token run between two separators:
/// a single-identifier name, optionally followed by `= value tokens` or by
/// one delimited group. A longer path is rejected with `expected ident`,
/// and tokens after the meta with `expected `,``, the way the surrounding
/// delimited iteration would reject them.
pub open spec fn spec_meta_of_run(run: Seq<TokenNode>) -> Result<
    (Seq<char>, Option<MetaValueV>),
    Seq<char>,
> {
    match spec_parse_path(run) {
        Err(m) => Err(m),
        Ok(((leading, segs), rest)) => {
            if rest.len() > 0 && is_visible_group(rest[0]) {
                if rest.len() != 1 {
                    Err("expected `,`"@)
                } else if leading || segs.len() != 1 {
                    Err("expected ident"@)
                } else {
                    Ok((segs[0], Some(MetaValueV::Stream(group_contents(rest[0])))))
                }
            } else if rest.len() > 0 && is_punct_ch(rest[0], '=') && !spec_eq_is_compound(rest) {
                if rest.len() == 1 {
                    Err("expected an expression"@)
                } else if leading || segs.len() != 1 {
                    Err("expected ident"@)
                } else {
                    Ok((segs[0], Some(MetaValueV::Expr(rest.skip(1)))))
                }
            } else if rest.len() == 0 {
                if leading || segs.len() != 1 {
                    Err("expected ident"@)
                } else {
                    Ok((segs[0], None))
                }
            } else {
                Err("expected `,`"@)
            }
        },
    }
}

/// Parse one option meta from a token run.
pub fn meta_of_run(run: Vec<TokenNode>) -> (r: Result<(String, Option<MetaValue>), ParseError>)
    ensures
        (match r {
            Ok(p) => spec_meta_of_run(run@) == Ok::<_, Seq<char>>((p.0@, opt_meta_view(p.1))),
            Err(e) => spec_meta_of_run(run@) == Err::<(Seq<char>, Option<MetaValueV>), _>(e@),
        }),
{
    let (path, rest) = match parse_path(run) {
        Ok(p) => p,
        Err(e) => {
            return Err(e);
        },
    };
    let mut rest = rest;
    if rest.len() > 0 && rest[0].is_visible_group_node() {
        if rest.len() != 1 {
            Err(ParseError::new("expected `,`"))
        } else if path.leading || path.segments.len() != 1 {
            Err(ParseError::new("expected ident"))
        } else {
            let mut segments = path.segments;
            let name = segments.remove(0);
            let head = rest.remove(0);
            match head {
                TokenNode::Group { tokens: inner, .. } => Ok((name, Some(MetaValue::Stream(inner)))),
                _ => Err(ParseError::new("expected `,`")),
            }
        }
    } else if rest.len() > 0 && rest[0].is_punct('=') && !(rest.len() >= 2 && rest[0].is_joint_punct('=')
        && (rest[1].is_punct('=') || rest[1].is_punct('>'))) {
        if rest.len() == 1 {
            Err(ParseError::new("expected an expression"))
        } else if path.leading || path.segments.len() != 1 {
            Err(ParseError::new("expected ident"))
        } else {
            let mut segments = path.segments;
            let name = segments.remove(0);
            rest.remove(0);
            Ok((name, Some(MetaValue::Expr(rest))))
        }
    } else if rest.len() == 0 {
        if path.leading || path.segments.len() != 1 {
            Err(ParseError::new("expected ident"))
        } else {
            let mut segments = path.segments;
            let name = segments.remove(0);
            Ok((name, None))
        }
    } else {
        Err(ParseError::new("expected `,`"))
    }
}

/// A comma-separated list of option metas: the runs between top-level
/// commas, each parsed as one meta. An error in any run rejects the list.
pub open spec fn spec_meta_list(s: Seq<TokenNode>) -> Result<
    Seq<(Seq<char>, Option<MetaValueV>)>,
    Seq<char>,
>
    decreases s.len(),
    via spec_meta_list_decreases
{
    if s.len() == 0 {
        Ok(Seq::empty())
    } else {
        let run = s.subrange(0, crate::delimited::run_end(s, 0, ','));
        match spec_meta_of_run(run) {
            Err(m) => Err(m),
            Ok(entry) => match spec_meta_list(crate::delimited::after_run(s, ',')) {
                Ok(tail) => Ok(seq![entry] + tail),
                Err(m) => Err(m),
            },
        }
    }
}

#[via_fn]
proof fn spec_meta_list_decreases(s: Seq<TokenNode>) {
    if s.len() > 0 {
        crate::delimited::lemma_run_end_bounds(s, 0, ',');
    }
}

/// The view of a parsed meta list.
pub open spec fn entries_view(s: Seq<(String, Option<MetaValue>)>) -> Seq<
    (Seq<char>, Option<MetaValueV>),
> {
    s.map_values(|p: (String, Option<MetaValue>)| (p.0@, opt_meta_view(p.1)))
}

/// The option metas announced by a whole option stream: an optional value
/// syntax wrapper (`= ...` or `( ... )`) around a comma-separated meta
/// list.
pub open spec fn spec_iterate_option_meta(s: Seq<TokenNode>) -> Result<
    Seq<(Seq<char>, Option<MetaValueV>)>,
    Seq<char>,
> {
    match crate::value_syntax::spec_value_syntax(s) {
        None => spec_meta_list(s),
        Some(v) => match crate::value_syntax::spec_parse_token(v, s) {
            Ok((inner, rest)) => match inner {
                Some(contents) => spec_meta_list(contents),
                None => spec_meta_list(rest),
            },
            Err(m) => Err(m),
        },
    }
}

/// Iterate over the option metas of a stream: the names and value parts of
/// each comma-separated option, after unwrapping an announcing value
/// syntax if one stands at the head.
#[verifier::loop_isolation(false)]
pub fn iterate_option_meta(tokens: Vec<TokenNode>) -> (r: Result<
    Vec<(String, Option<MetaValue>)>,
    ParseError,
>)
    ensures
        (match r {
            Ok(v) => spec_iterate_option_meta(tokens@) == Ok::<_, Seq<char>>(entries_view(v@)),
            Err(e) => spec_iterate_option_meta(tokens@) == Err::<
                Seq<(Seq<char>, Option<MetaValueV>)>,
                _,
            >(e@),
        }),
{
    let ghost t0 = tokens@;
    let parse_from = match crate::value_syntax::ValueSyntax::from_tokens(&tokens) {
        Some(syntax) => match syntax.parse_token(tokens) {
            Ok((inner, rest)) => match inner {
                Some(contents) => contents,
                None => rest,
            },
            Err(e) => {
                return Err(e);
            },
        },
        None => tokens,
    };
    let ghost s0 = parse_from@;
    proof {
        assert(spec_iterate_option_meta(t0) == spec_meta_list(s0));
    }
    let mut iter = crate::delimited::DelimitedIter::new(parse_from, ',');
    let mut out: Vec<(String, Option<MetaValue>)> = Vec::new();
    loop
        invariant
            iter.sep_char() == ',',
            !iter.has_errored(),
            spec_iterate_option_meta(t0) == spec_meta_list(s0),
            (match spec_meta_list(s0) {
                Ok(full) => spec_meta_list(iter.items()) matches Ok(part) && full == entries_view(
                    out@,
                ) + part,
                Err(m) => spec_meta_list(iter.items()) matches Err(m2) && m2 == m,
            }),
        decreases iter.items().len(),
    {
        let ghost items_before = iter.items();
        match iter.next_item() {
            None => {
                proof {
                    assert(spec_meta_list(iter.items()) == Ok::<_, Seq<char>>(
                        Seq::<(Seq<char>, Option<MetaValueV>)>::empty(),
                    ));
                    if spec_meta_list(s0) is Ok {
                        assert(spec_meta_list(s0)->Ok_0 =~= entries_view(out@));
                    }
                    assert(spec_iterate_option_meta(t0) == Ok::<_, Seq<char>>(entries_view(out@)));
                }
                return Ok(out);
            },
            Some(run) => {
                proof {
                    crate::delimited::lemma_run_end_bounds(items_before, 0, ',');
                    assert(items_before.subrange(
                        0,
                        crate::delimited::run_end(items_before, 0, ','),
                    ) == run@);
                    assert(iter.items() == crate::delimited::after_run(items_before, ','));
                }
                match meta_of_run(run) {
                    Ok(entry) => {
                        let ghost out_before = out@;
                        let ghost ev = (entry.0@, opt_meta_view(entry.1));
                        out.push(entry);
                        proof {
                            assert(entries_view(out@) =~= entries_view(out_before) + seq![ev]);
                            if spec_meta_list(s0) is Ok {
                                let part_before = spec_meta_list(items_before)->Ok_0;
                                let part_now = spec_meta_list(iter.items())->Ok_0;
                                assert(part_before == seq![ev] + part_now);
                                assert(entries_view(out_before) + part_before =~= entries_view(out@)
                                    + part_now);
                            }
                        }
                    },
                    Err(e) => {
                        proof {
                            assert(spec_meta_list(items_before) matches Err(m) && m == e@);
                            assert(spec_iterate_option_meta(t0) == Err::<
                                Seq<(Seq<char>, Option<MetaValueV>)>,
                                _,
                            >(e@));
                        }
                        return Err(e);
                    },
                }
            },
        }
    }
}

/// Get the single identifier from a path, or a diagnostic if the path is
/// longer than one plain segment.
pub fn get_attr_ident(path: &AttrPath) -> (r: Result<&String, ParseError>)
    ensures
        r is Ok <==> (!path.leading && path.segments@.len() == 1),
        (match r {
            Ok(name) => name@ == path.segments@[0]@,
            Err(e) => e@ == "expected ident"@,
        }),
{
    if !path.leading && path.segments.len() == 1 {
        Ok(&path.segments[0])
    } else {
        Err(ParseError::new("expected ident"))
    }
}

} // verus!
