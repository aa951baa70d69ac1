use vstd::prelude::*;

use crate::delimited::{after_run, run_end, split_first_run};
use crate::derive::fields::{fields_error, fields_match, fields_ok, named_fields_wf, Fields};
use crate::errors::ParseError;
use crate::extract_fields::DeriveInputDef;
use crate::meta::{spec_args_error, Attr, AttrMetaKind};
use crate::parse_option::{named_attrs, AttributeOptions, ParseOption};
use crate::parse_utils::{decode_attr_options_field, nested_path, spec_nested_path};
use crate::tokens::TokenNode;

verus! {

/// The container options of the plain-parsing derive.
pub struct Options {
    /// Whether the type's plain parse should stand in for option
    /// decoding.
    pub from_parse: bool,
}

/// Step through the runs of one argument list for the container options:
/// only `from_parse` is decoded, any other option is passed over as long
/// as it carries no value.
pub open spec fn opt_runs_step(s: Seq<TokenNode>, st: bool) -> Result<bool, Seq<char>>
    decreases s.len(),
    via opt_runs_step_decreases
{
    if s.len() == 0 {
        Ok(st)
    } else {
        let run = s.subrange(0, run_end(s, 0, ','));
        let after = after_run(s, ',');
        match spec_nested_path(run) {
            Err(m) => Err(m),
            Ok(((leading, segs), rest)) => if !leading && segs.len() == 1 && segs[0]
                == "from_parse"@ {
                if st {
                    Err("duplicate attribute"@)
                } else if <bool as ParseOption>::stream_ok(rest) {
                    opt_runs_step(after, true)
                } else {
                    Err(<bool as ParseOption>::stream_err(rest))
                }
            } else {
                if rest.len() == 0 {
                    opt_runs_step(after, st)
                } else {
                    Err("expected `,`"@)
                }
            },
        }
    }
}

#[via_fn]
proof fn opt_runs_step_decreases(s: Seq<TokenNode>, st: bool) {
    if s.len() > 0 {
        crate::delimited::lemma_run_end_bounds(s, 0, ',');
    }
}

/// Step through an attribute sequence for the container options.
pub open spec fn opt_attrs_step(attrs: Seq<Attr>, st: bool) -> Result<bool, Seq<char>>
    decreases attrs.len(),
{
    if attrs.len() == 0 {
        Ok(st)
    } else {
        match attrs[0].meta {
            AttrMetaKind::List(tokens) => match opt_runs_step(tokens@, st) {
                Err(m) => Err(m),
                Ok(st2) => opt_attrs_step(attrs.skip(1), st2),
            },
            _ => Err(spec_args_error(attrs[0])),
        }
    }
}

/// The `from_parse` value that the runs of one argument list leave
/// behind.
pub open spec fn opt_runs_val(s: Seq<TokenNode>, b_in: Option<bool>, b_out: Option<bool>) -> bool
    decreases s.len(),
    via opt_runs_val_decreases
{
    if s.len() == 0 {
        b_out == b_in
    } else {
        let run = s.subrange(0, run_end(s, 0, ','));
        let after = after_run(s, ',');
        match spec_nested_path(run) {
            Err(_) => false,
            Ok(((leading, segs), rest)) => if !leading && segs.len() == 1 && segs[0]
                == "from_parse"@ {
                exists|v: bool|
                    <bool as ParseOption>::stream_value(rest, v) && opt_runs_val(
                        after,
                        Some(v),
                        b_out,
                    )
            } else {
                opt_runs_val(after, b_in, b_out)
            },
        }
    }
}

#[via_fn]
proof fn opt_runs_val_decreases(s: Seq<TokenNode>, b_in: Option<bool>, b_out: Option<bool>) {
    if s.len() > 0 {
        crate::delimited::lemma_run_end_bounds(s, 0, ',');
    }
}

/// The `from_parse` value that an attribute sequence leaves behind.
pub open spec fn opt_attrs_val(attrs: Seq<Attr>, b_in: Option<bool>, b_out: Option<bool>) -> bool
    decreases attrs.len(),
{
    if attrs.len() == 0 {
        b_out == b_in
    } else {
        match attrs[0].meta {
            AttrMetaKind::List(tokens) => exists|b_mid: Option<bool>|
                opt_runs_val(tokens@, b_in, b_mid) && opt_attrs_val(attrs.skip(1), b_mid, b_out),
            _ => false,
        }
    }
}

/// Decode the runs of one argument list into the container options.
fn opt_decode_runs(tokens: Vec<TokenNode>, from_parse: Option<bool>) -> (r: Result<
    Option<bool>,
    ParseError,
>)
    ensures
        (match r {
            Ok(b) => {
                &&& opt_runs_step(tokens@, from_parse is Some) == Ok::<_, Seq<char>>(b is Some)
                &&& opt_runs_val(tokens@, from_parse, b)
            },
            Err(e) => opt_runs_step(tokens@, from_parse is Some) matches Err(m) && m == e@,
        }),
    decreases tokens@.len(),
{
    if tokens.len() == 0 {
        return Ok(from_parse);
    }
    proof {
        crate::delimited::lemma_run_end_bounds(tokens@, 0, ',');
    }
    let (run, rest) = split_first_run(tokens, ',');
    let (path, value_tokens) = match nested_path(run) {
        Ok(p) => p,
        Err(e) => {
            return Err(e);
        },
    };
    if path.is_ident("from_parse") {
        let mut from_parse = from_parse;
        match decode_attr_options_field::<bool>(&mut from_parse, value_tokens) {
            Ok(_) => opt_decode_runs(rest, from_parse),
            Err(e) => Err(e),
        }
    } else {
        if value_tokens.len() == 0 {
            opt_decode_runs(rest, from_parse)
        } else {
            Err(ParseError::new("expected `,`"))
        }
    }
}

/// Walk the attribute sequence, decoding each argument list in turn.
fn opt_decode_attrs(attrs: Vec<Attr>, from_parse: Option<bool>) -> (r: Result<
    Option<bool>,
    ParseError,
>)
    ensures
        (match r {
            Ok(b) => {
                &&& opt_attrs_step(attrs@, from_parse is Some) == Ok::<_, Seq<char>>(b is Some)
                &&& opt_attrs_val(attrs@, from_parse, b)
            },
            Err(e) => opt_attrs_step(attrs@, from_parse is Some) matches Err(m) && m == e@,
        }),
    decreases attrs@.len(),
{
    let ghost attrs0 = attrs@;
    let mut attrs = attrs;
    if attrs.len() == 0 {
        return Ok(from_parse);
    }
    let head = attrs.remove(0);
    proof {
        assert(attrs@ =~= attrs0.skip(1));
    }
    match head.meta {
        AttrMetaKind::List(tokens) => {
            match opt_decode_runs(tokens, from_parse) {
                Ok(b_mid) => {
                    let ghost gb = b_mid;
                    let out = opt_decode_attrs(attrs, b_mid);
                    proof {
                        if out is Ok {
                            assert(opt_runs_val(head.meta->List_0@, from_parse, gb));
                            assert(opt_attrs_val(attrs0.skip(1), gb, out->Ok_0));
                        }
                    }
                    out
                },
                Err(e) => Err(e),
            }
        },
        _ => {
            let e = head.args_error();
            Err(e)
        },
    }
}

impl AttributeOptions for Options {
    open spec fn attrs_ok(attrs: Seq<Attr>) -> bool {
        opt_attrs_step(attrs, false) is Ok
    }

    open spec fn attrs_err(attrs: Seq<Attr>) -> Seq<char> {
        opt_attrs_step(attrs, false)->Err_0
    }

    open spec fn attrs_value(attrs: Seq<Attr>, v: Self) -> bool {
        exists|b: Option<bool>|
            opt_attrs_val(attrs, None, b) && v.from_parse == (match b {
                Some(x) => x,
                None => false,
            })
    }

    fn from_iter(attributes: Vec<Attr>) -> (r: Result<Self, ParseError>) {
        match opt_decode_attrs(attributes, None) {
            Ok(b) => {
                let ghost gb = b;
                let from_parse = match b {
                    Some(x) => x,
                    None => false,
                };
                let v = Options { from_parse };
                proof {
                    assert(opt_attrs_val(attributes@, None, gb) && v.from_parse == (match gb {
                        Some(x) => x,
                        None => false,
                    }));
                }
                Ok(v)
            },
            Err(e) => Err(e),
        }
    }
}

/// What the plain-parsing derive shares between its two shapes: the
/// annotated type's name and generics.
pub struct ParseOptionCommonData {
    /// The annotated type's name.
    pub ident: String,
    /// The annotated type's generics, as raw tokens.
    pub generics: Vec<TokenNode>,
}

/// The parsed input of the plain-parsing derive.
pub enum ParseOptionDerive {
    /// Decode the options field by field.
    Base(ParseOptionCommonData, Fields),
    /// Forward to the type's plain parse.
    FromParse(ParseOptionCommonData),
}

impl ParseOptionDerive {
    /// The shared data of either shape.
    pub fn common(&self) -> (r: &ParseOptionCommonData)
        ensures
            (match self {
                ParseOptionDerive::Base(c, _) => r == c,
                ParseOptionDerive::FromParse(c) => r == c,
            }),
    {
        match self {
            ParseOptionDerive::Base(c, _) => c,
            ParseOptionDerive::FromParse(c) => c,
        }
    }

    /// The classified fields of the field-by-field shape.
    pub fn fields(&self) -> (r: &Fields)
        requires
            self is Base,
        ensures
            (match self {
                ParseOptionDerive::Base(_, fields) => r == fields,
                ParseOptionDerive::FromParse(_) => true,
            }),
    {
        match self {
            ParseOptionDerive::Base(_, fields) => fields,
            ParseOptionDerive::FromParse(_) => vstd::pervasive::unreached(),
        }
    }

    /// Read a derive input for the plain-parsing derive: its `attr_opts`
    /// container options pick the shape, and the field-by-field shape
    /// classifies the fields.
    pub fn parse(input: DeriveInputDef) -> (r: Result<Self, ParseError>)
        requires
            named_fields_wf(input.data),
        ensures
            ({
                let kept = named_attrs(input.attrs@, "attr_opts"@);
                &&& (match r {
                    Ok(v) => {
                        &&& Options::attrs_ok(kept)
                        &&& (exists|o: Options|
                            Options::attrs_value(kept, o) && (if o.from_parse {
                                v is FromParse
                            } else {
                                v matches ParseOptionDerive::Base(_, fields) && fields_match(
                                    input.data,
                                    fields,
                                )
                            }))
                        &&& v.spec_common_ident() == input.ident@
                        &&& v.spec_common_generics() == input.generics@
                    },
                    Err(e) => {
                        if !Options::attrs_ok(kept) {
                            e@ == Options::attrs_err(kept)
                        } else {
                            (exists|o: Options| Options::attrs_value(kept, o) && !o.from_parse)
                                && fields_error(input.data, e@)
                        }
                    },
                })
            }),
    {
        let DeriveInputDef { ident, generics, data, attrs } = input;
        let opts = match Options::from_iter_named("attr_opts", attrs) {
            Ok(opts) => opts,
            Err(e) => {
                return Err(e);
            },
        };
        let common = ParseOptionCommonData { ident, generics };
        if opts.from_parse {
            Ok(ParseOptionDerive::FromParse(common))
        } else {
            match Fields::try_from(data) {
                Ok(fields) => Ok(ParseOptionDerive::Base(common, fields)),
                Err(e) => Err(e),
            }
        }
    }

    /// The annotated type's name.
    pub closed spec fn spec_common_ident(&self) -> Seq<char> {
        match self {
            ParseOptionDerive::Base(c, _) => c.ident@,
            ParseOptionDerive::FromParse(c) => c.ident@,
        }
    }

    /// The annotated type's generics tokens.
    pub closed spec fn spec_common_generics(&self) -> Seq<TokenNode> {
        match self {
            ParseOptionDerive::Base(c, _) => c.generics@,
            ParseOptionDerive::FromParse(c) => c.generics@,
        }
    }
}

} // verus!
