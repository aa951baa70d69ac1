use vstd::prelude::*;

use crate::errors::ParseError;
use crate::meta::{spec_has_sep, MetaValue, MetaValueV};
use crate::parse_option::{FromExpr, ParseOption};
use crate::tokens::TokenNode;

verus! {

/// The path at the head of one nested meta, under the argument-list
/// machinery's own diagnostics: a bare comma or other stray token, a
/// literal, and a separator with no segment after it are each told apart.
pub open spec fn spec_nested_path(run: Seq<TokenNode>) -> Result<
    ((bool, Seq<Seq<char>>), Seq<TokenNode>),
    Seq<char>,
> {
    let leading = spec_has_sep(run);
    let body = if leading {
        run.skip(2)
    } else {
        run
    };
    if body.len() == 0 {
        if leading {
            Err("expected nested attribute"@)
        } else {
            Err("unexpected token in nested attribute, expected ident"@)
        }
    } else if body[0] is Lit {
        Err("unexpected literal in nested attribute, expected ident"@)
    } else if !(body[0] is Ident) {
        Err("unexpected token in nested attribute, expected ident"@)
    } else {
        match crate::meta::spec_segments(body, "expected identifier"@) {
            Ok((segs, rest)) => Ok(((leading, segs), rest)),
            Err(m) => Err(m),
        }
    }
}

/// One nested meta of an attribute argument list: its single-identifier
/// name and the tokens that follow it (the value under its announcing
/// syntax). A longer path is rejected with `expected ident`.
pub open spec fn spec_nested_of_run(run: Seq<TokenNode>) -> Result<
    (Seq<char>, Seq<TokenNode>),
    Seq<char>,
> {
    match spec_nested_path(run) {
        Err(m) => Err(m),
        Ok(((leading, segs), rest)) => if leading || segs.len() != 1 {
            Err("expected ident"@)
        } else {
            Ok((segs[0], rest))
        },
    }
}

/// Parse the path at the head of one nested meta.
pub(crate) fn nested_path(run: Vec<TokenNode>) -> (r: Result<
    (crate::meta::AttrPath, Vec<TokenNode>),
    ParseError,
>)
    ensures
        (match r {
            Ok(p) => spec_nested_path(run@) == Ok::<_, Seq<char>>((p.0@, p.1@)),
            Err(e) => spec_nested_path(run@) == Err::<
                ((bool, Seq<Seq<char>>), Seq<TokenNode>),
                _,
            >(e@),
        }),
{
    let ghost s = run@;
    let mut run = run;
    let leading = run.len() >= 2 && run[0].is_joint_punct(':') && run[1].is_punct(':');
    if leading {
        run.remove(0);
        run.remove(0);
        proof {
            assert(run@ =~= s.skip(2));
        }
    }
    if run.len() == 0 {
        if leading {
            return Err(ParseError::new("expected nested attribute"));
        } else {
            return Err(ParseError::new("unexpected token in nested attribute, expected ident"));
        }
    }
    if run[0].is_lit_node() {
        return Err(ParseError::new("unexpected literal in nested attribute, expected ident"));
    }
    if !run[0].is_ident_node() {
        return Err(ParseError::new("unexpected token in nested attribute, expected ident"));
    }
    match crate::meta::parse_segments(run, "expected identifier") {
        Ok((segments, rest)) => Ok((crate::meta::AttrPath { leading, segments }, rest)),
        Err(e) => Err(e),
    }
}

/// The nested metas of an attribute argument list: the runs between
/// top-level commas, each a name and its value tokens.
pub open spec fn spec_nested_runs(s: Seq<TokenNode>) -> Result<
    Seq<(Seq<char>, Seq<TokenNode>)>,
    Seq<char>,
>
    decreases s.len(),
    via spec_nested_runs_decreases
{
    if s.len() == 0 {
        Ok(Seq::empty())
    } else {
        let run = s.subrange(0, crate::delimited::run_end(s, 0, ','));
        match spec_nested_of_run(run) {
            Err(m) => Err(m),
            Ok(entry) => match spec_nested_runs(crate::delimited::after_run(s, ',')) {
                Ok(tail) => Ok(seq![entry] + tail),
                Err(m) => Err(m),
            },
        }
    }
}

#[via_fn]
proof fn spec_nested_runs_decreases(s: Seq<TokenNode>) {
    if s.len() > 0 {
        crate::delimited::lemma_run_end_bounds(s, 0, ',');
    }
}

/// The view of a split argument list.
pub open spec fn runs_view(s: Seq<(String, Vec<TokenNode>)>) -> Seq<(Seq<char>, Seq<TokenNode>)> {
    s.map_values(|p: (String, Vec<TokenNode>)| (p.0@, p.1@))
}

/// Parse one nested meta from a token run.
pub(crate) fn nested_of_run(run: Vec<TokenNode>) -> (r: Result<(String, Vec<TokenNode>), ParseError>)
    ensures
        (match r {
            Ok(p) => spec_nested_of_run(run@) == Ok::<_, Seq<char>>((p.0@, p.1@)),
            Err(e) => spec_nested_of_run(run@) == Err::<(Seq<char>, Seq<TokenNode>), _>(e@),
        }),
{
    match nested_path(run) {
        Err(e) => Err(e),
        Ok((path, rest)) => {
            if path.leading || path.segments.len() != 1 {
                Err(ParseError::new("expected ident"))
            } else {
                let mut segments = path.segments;
                let name = segments.remove(0);
                Ok((name, rest))
            }
        },
    }
}

/// Split an attribute argument list into its nested metas: for each
/// comma-separated run, the option name and the tokens that spell its
/// value.
#[verifier::loop_isolation(false)]
pub fn nested_meta_runs(tokens: Vec<TokenNode>) -> (r: Result<
    Vec<(String, Vec<TokenNode>)>,
    ParseError,
>)
    ensures
        (match r {
            Ok(v) => spec_nested_runs(tokens@) == Ok::<_, Seq<char>>(runs_view(v@)),
            Err(e) => spec_nested_runs(tokens@) == Err::<Seq<(Seq<char>, Seq<TokenNode>)>, _>(e@),
        }),
{
    let ghost s0 = tokens@;
    let mut iter = crate::delimited::DelimitedIter::new(tokens, ',');
    let mut out: Vec<(String, Vec<TokenNode>)> = Vec::new();
    loop
        invariant
            iter.sep_char() == ',',
            !iter.has_errored(),
            (match spec_nested_runs(s0) {
                Ok(full) => spec_nested_runs(iter.items()) matches Ok(part) && full == runs_view(
                    out@,
                ) + part,
                Err(m) => spec_nested_runs(iter.items()) matches Err(m2) && m2 == m,
            }),
        decreases iter.items().len(),
    {
        let ghost items_before = iter.items();
        match iter.next_item() {
            None => {
                proof {
                    assert(spec_nested_runs(iter.items()) == Ok::<_, Seq<char>>(
                        Seq::<(Seq<char>, Seq<TokenNode>)>::empty(),
                    ));
                    if spec_nested_runs(s0) is Ok {
                        assert(spec_nested_runs(s0)->Ok_0 =~= runs_view(out@));
                    }
                }
                return Ok(out);
            },
            Some(run) => {
                proof {
                    crate::delimited::lemma_run_end_bounds(items_before, 0, ',');
                }
                match nested_of_run(run) {
                    Ok(entry) => {
                        let ghost out_before = out@;
                        let ghost ev = (entry.0@, entry.1@);
                        out.push(entry);
                        proof {
                            assert(runs_view(out@) =~= runs_view(out_before) + seq![ev]);
                            if spec_nested_runs(s0) is Ok {
                                let part_before = spec_nested_runs(items_before)->Ok_0;
                                let part_now = spec_nested_runs(iter.items())->Ok_0;
                                assert(part_before == seq![ev] + part_now);
                                assert(runs_view(out_before) + part_before =~= runs_view(out@)
                                    + part_now);
                            }
                        }
                    },
                    Err(e) => {
                        return Err(e);
                    },
                }
            },
        }
    }
}

/// Decode a field while iterating option metas: reject a second value for
/// an already-set option, decode an expression or stream value, and fall
/// back to the type's bare-name value when no value was given.
pub fn decode_parse_option_field<O: ParseOption + FromExpr>(
    option: &mut Option<O>,
    value_source: Option<MetaValue>,
) -> (r: Result<(), ParseError>)
    ensures
        (match old(option) {
            Some(_) => {
                &&& r matches Err(e) && e@ == "duplicate attribute"@
                &&& *final(option) == *old(option)
            },
            None => (match value_source {
                Some(MetaValue::Expr(e)) => {
                    &&& (r is Ok <==> O::expr_ok(e@))
                    &&& (match r {
                        Ok(_) => (*final(option)) matches Some(v) && O::expr_value(e@, v),
                        Err(er) => er@ == O::expr_err(e@) && *final(option) is None,
                    })
                },
                Some(MetaValue::Stream(s)) => {
                    &&& (r is Ok <==> O::stream_ok(s@))
                    &&& (match r {
                        Ok(_) => (*final(option)) matches Some(v) && O::stream_value(s@, v),
                        Err(er) => er@ == O::stream_err(s@) && *final(option) is None,
                    })
                },
                None => {
                    if O::has_boolean() {
                        r is Ok && ((*final(option)) matches Some(v) && O::boolean_value(v))
                    } else {
                        (r matches Err(e) && e@ == "expected a value"@) && *final(option) is None
                    }
                },
            }),
        }),
{
    if option.is_some() {
        return Err(ParseError::new("duplicate attribute"));
    }
    let new_value = match value_source {
        Some(MetaValue::Expr(expr)) => match O::from_expr(expr) {
            Ok(v) => v,
            Err(e) => {
                return Err(e);
            },
        },
        Some(MetaValue::Stream(stream)) => match O::from_stream(stream) {
            Ok(v) => v,
            Err(e) => {
                return Err(e);
            },
        },
        None => match O::boolean() {
            Some(v) => v,
            None => {
                return Err(ParseError::new("expected a value"));
            },
        },
    };
    *option = Some(new_value);
    Ok(())
}

/// Decode a field while iterating attribute arguments: reject a second
/// value for an already-set option, and decode the value from its stream.
pub fn decode_attr_options_field<O: ParseOption>(
    option: &mut Option<O>,
    stream: Vec<TokenNode>,
) -> (r: Result<(), ParseError>)
    ensures
        (match old(option) {
            Some(_) => {
                &&& r matches Err(e) && e@ == "duplicate attribute"@
                &&& *final(option) == *old(option)
            },
            None => {
                &&& (r is Ok <==> O::stream_ok(stream@))
                &&& (match r {
                    Ok(_) => (*final(option)) matches Some(v) && O::stream_value(stream@, v),
                    Err(er) => er@ == O::stream_err(stream@) && *final(option) is None,
                })
            },
        }),
{
    if option.is_some() {
        return Err(ParseError::new("duplicate attribute"));
    }
    match O::from_stream(stream) {
        Ok(v) => {
            *option = Some(v);
            Ok(())
        },
        Err(e) => Err(e),
    }
}

/// Decode an option that chose plain parsing: unwrap the announcing value
/// syntax, if any, and hand back the tokens that spell the value.
pub fn decode_parse_option_from_parse(tokens: Vec<TokenNode>) -> (r: Result<
    Vec<TokenNode>,
    ParseError,
>)
    ensures
        (match r {
            Ok(v) => crate::ext::spec_valued_attr(tokens@) == Ok::<_, Seq<char>>(v@),
            Err(e) => crate::ext::spec_valued_attr(tokens@) == Err::<Seq<TokenNode>, _>(e@),
        }),
{
    crate::ext::parse_valued_attr(tokens)
}

} // verus!
