use vstd::prelude::*;

use crate::delimited::{after_run, run_end, split_first_run};
use crate::derive::default_option::DefaultOption;
use crate::errors::ParseError;
use crate::meta::{spec_args_error, Attr, AttrMetaKind};
use crate::parse_option::{AttributeOptions, ParseOption};
use crate::parse_utils::{decode_attr_options_field, nested_of_run, spec_nested_of_run};
use crate::tokens::{StrLit, TokenNode};

verus! {

/// The `attr_opts` options of one field: how its default is made and the
/// option name it answers to.
#[derive(Debug)]
pub struct FieldOpts {
    /// How the field's default value is made, if said.
    pub default: Option<DefaultOption>,
    /// The option name that stands in for the field's own, if said.
    pub rename: Option<StrLit>,
}

/// Step through the runs of one argument list, tracking only which of the
/// two options were already set, and the first diagnostic if one arises.
pub open spec fn runs_step(s: Seq<TokenNode>, st: (bool, bool)) -> Result<(bool, bool), Seq<char>>
    decreases s.len(),
    via runs_step_decreases
{
    if s.len() == 0 {
        Ok(st)
    } else {
        let run = s.subrange(0, run_end(s, 0, ','));
        let after = after_run(s, ',');
        match spec_nested_of_run(run) {
            Err(m) => Err(m),
            Ok((name, rest)) => if name == "default"@ {
                if st.0 {
                    Err("duplicate attribute"@)
                } else if <DefaultOption as ParseOption>::stream_ok(rest) {
                    runs_step(after, (true, st.1))
                } else {
                    Err(<DefaultOption as ParseOption>::stream_err(rest))
                }
            } else if name == "rename"@ {
                if st.1 {
                    Err("duplicate attribute"@)
                } else if <StrLit as ParseOption>::stream_ok(rest) {
                    runs_step(after, (st.0, true))
                } else {
                    Err(<StrLit as ParseOption>::stream_err(rest))
                }
            } else {
                Err("Unrecognised attribute: `"@ + name + "`"@)
            },
        }
    }
}

#[via_fn]
proof fn runs_step_decreases(s: Seq<TokenNode>, st: (bool, bool)) {
    if s.len() > 0 {
        crate::delimited::lemma_run_end_bounds(s, 0, ',');
    }
}

/// Step through an attribute sequence: each attribute must carry an
/// argument list, whose runs are stepped through in turn.
pub open spec fn attrs_step(attrs: Seq<Attr>, st: (bool, bool)) -> Result<
    (bool, bool),
    Seq<char>,
>
    decreases attrs.len(),
{
    if attrs.len() == 0 {
        Ok(st)
    } else {
        match attrs[0].meta {
            AttrMetaKind::List(tokens) => match runs_step(tokens@, st) {
                Err(m) => Err(m),
                Ok(st2) => attrs_step(attrs.skip(1), st2),
            },
            _ => Err(spec_args_error(attrs[0])),
        }
    }
}

/// The options that the runs of one argument list leave behind, starting
/// from the given already-decoded values.
pub open spec fn runs_val(
    s: Seq<TokenNode>,
    d_in: Option<DefaultOption>,
    r_in: Option<StrLit>,
    d_out: Option<DefaultOption>,
    r_out: Option<StrLit>,
) -> bool
    decreases s.len(),
    via runs_val_decreases
{
    if s.len() == 0 {
        d_out == d_in && r_out == r_in
    } else {
        let run = s.subrange(0, run_end(s, 0, ','));
        let after = after_run(s, ',');
        match spec_nested_of_run(run) {
            Err(_) => false,
            Ok((name, rest)) => if name == "default"@ {
                exists|v: DefaultOption|
                    <DefaultOption as ParseOption>::stream_value(rest, v) && runs_val(
                        after,
                        Some(v),
                        r_in,
                        d_out,
                        r_out,
                    )
            } else if name == "rename"@ {
                exists|v: StrLit|
                    <StrLit as ParseOption>::stream_value(rest, v) && runs_val(
                        after,
                        d_in,
                        Some(v),
                        d_out,
                        r_out,
                    )
            } else {
                false
            },
        }
    }
}

#[via_fn]
proof fn runs_val_decreases(
    s: Seq<TokenNode>,
    d_in: Option<DefaultOption>,
    r_in: Option<StrLit>,
    d_out: Option<DefaultOption>,
    r_out: Option<StrLit>,
) {
    if s.len() > 0 {
        crate::delimited::lemma_run_end_bounds(s, 0, ',');
    }
}

/// The options that an attribute sequence leaves behind, starting from
/// the given already-decoded values.
pub open spec fn attrs_val(
    attrs: Seq<Attr>,
    d_in: Option<DefaultOption>,
    r_in: Option<StrLit>,
    d_out: Option<DefaultOption>,
    r_out: Option<StrLit>,
) -> bool
    decreases attrs.len(),
{
    if attrs.len() == 0 {
        d_out == d_in && r_out == r_in
    } else {
        match attrs[0].meta {
            AttrMetaKind::List(tokens) => exists|
                d_mid: Option<DefaultOption>,
                r_mid: Option<StrLit>,
            |
                runs_val(tokens@, d_in, r_in, d_mid, r_mid) && attrs_val(
                    attrs.skip(1),
                    d_mid,
                    r_mid,
                    d_out,
                    r_out,
                ),
            _ => false,
        }
    }
}

/// Decode the runs of one argument list into the two options.
fn decode_runs(
    tokens: Vec<TokenNode>,
    default: Option<DefaultOption>,
    rename: Option<StrLit>,
) -> (r: Result<(Option<DefaultOption>, Option<StrLit>), ParseError>)
    ensures
        (match r {
            Ok(p) => {
                &&& runs_step(tokens@, (default is Some, rename is Some)) == Ok::<_, Seq<char>>(
                    (p.0 is Some, p.1 is Some),
                )
                &&& runs_val(tokens@, default, rename, p.0, p.1)
            },
            Err(e) => runs_step(tokens@, (default is Some, rename is Some)) matches Err(m) && m
                == e@,
        }),
    decreases tokens@.len(),
{
    if tokens.len() == 0 {
        return Ok((default, rename));
    }
    proof {
        crate::delimited::lemma_run_end_bounds(tokens@, 0, ',');
    }
    let (run, rest) = split_first_run(tokens, ',');
    let (name, value_tokens) = match nested_of_run(run) {
        Ok(p) => p,
        Err(e) => {
            return Err(e);
        },
    };
    let default_name = "default".to_owned();
    let rename_name = "rename".to_owned();
    if name.eq(&default_name) {
        let mut default = default;
        match decode_attr_options_field::<DefaultOption>(&mut default, value_tokens) {
            Ok(_) => decode_runs(rest, default, rename),
            Err(e) => Err(e),
        }
    } else if name.eq(&rename_name) {
        let mut rename = rename;
        match decode_attr_options_field::<StrLit>(&mut rename, value_tokens) {
            Ok(_) => decode_runs(rest, default, rename),
            Err(e) => Err(e),
        }
    } else {
        let mut msg = String::new();
        msg.append("Unrecognised attribute: `");
        msg.append(name.as_str());
        msg.append("`");
        proof {
            assert(msg@ =~= "Unrecognised attribute: `"@ + name@ + "`"@);
        }
        Err(ParseError::from_string(msg))
    }
}

/// Walk the attribute sequence, decoding each argument list in turn.
fn decode_attrs(
    attrs: Vec<Attr>,
    default: Option<DefaultOption>,
    rename: Option<StrLit>,
) -> (r: Result<(Option<DefaultOption>, Option<StrLit>), ParseError>)
    ensures
        (match r {
            Ok(p) => {
                &&& attrs_step(attrs@, (default is Some, rename is Some)) == Ok::<_, Seq<char>>(
                    (p.0 is Some, p.1 is Some),
                )
                &&& attrs_val(attrs@, default, rename, p.0, p.1)
            },
            Err(e) => attrs_step(attrs@, (default is Some, rename is Some)) matches Err(m) && m
                == e@,
        }),
    decreases attrs@.len(),
{
    let ghost attrs0 = attrs@;
    let mut attrs = attrs;
    if attrs.len() == 0 {
        return Ok((default, rename));
    }
    let head = attrs.remove(0);
    proof {
        assert(attrs@ =~= attrs0.skip(1));
    }
    match head.meta {
        AttrMetaKind::List(tokens) => {
            match decode_runs(tokens, default, rename) {
            Ok((d_mid, r_mid)) => {
                let ghost gd = d_mid;
                let ghost gr = r_mid;
                let out = decode_attrs(attrs, d_mid, r_mid);
                proof {
                    if out is Ok {
                        let p = out->Ok_0;
                        assert(runs_val(head.meta->List_0@, default, rename, gd, gr));
                        assert(attrs_val(attrs0.skip(1), gd, gr, p.0, p.1));
                    }
                }
                out
            },
                Err(e) => Err(e),
            }
        },
        _ => {
            let e = head.args_error();
            Err(e)
        },
    }
}

impl AttributeOptions for FieldOpts {
    open spec fn attrs_ok(attrs: Seq<Attr>) -> bool {
        attrs_step(attrs, (false, false)) is Ok
    }

    open spec fn attrs_err(attrs: Seq<Attr>) -> Seq<char> {
        attrs_step(attrs, (false, false))->Err_0
    }

    open spec fn attrs_value(attrs: Seq<Attr>, v: Self) -> bool {
        attrs_val(attrs, None, None, v.default, v.rename)
    }

    fn from_iter(attributes: Vec<Attr>) -> (r: Result<Self, ParseError>) {
        match decode_attrs(attributes, None, None) {
            Ok((default, rename)) => Ok(FieldOpts { default, rename }),
            Err(e) => Err(e),
        }
    }
}

impl FieldOpts {
    /// Whether the derived code must not fall back to a default value for
    /// this field: its default was explicitly disabled.
    pub fn omit_default(&self) -> (r: bool)
        ensures
            r == (self.default matches Some(d) && d == DefaultOption::Explicit(false)),
    {
        match &self.default {
            Some(d) => d.is_required_marker(),
            None => false,
        }
    }
}

} // verus!
