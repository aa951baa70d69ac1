use vstd::prelude::*;

use crate::errors::ParseError;
use crate::extract_fields::FieldDef;
use crate::meta::{attr_is_named, Attr};
use crate::parse_option::{named_attrs, AttributeOptions};

verus! {

/// A field with its options parsed: the options are decoded from the
/// attributes a predicate claims, and the field keeps the rest.
#[derive(Debug)]
pub struct FieldWithOpts<O> {
    /// The field, with only the unclaimed attributes left on it.
    pub field: FieldDef,
    /// The decoded options.
    pub options: O,
}

/// Fields with their options parsed.
#[derive(Debug)]
pub enum FieldsWithOpts<O> {
    /// Named fields.
    Named(Vec<FieldWithOpts<O>>),
    /// Unnamed fields.
    Unnamed(Vec<FieldWithOpts<O>>),
    /// A unit struct.
    Unit,
}

/// The attributes whose flag equals `keep`, in order.
pub open spec fn filter_flags(s: Seq<Attr>, flags: Seq<bool>, keep: bool) -> Seq<Attr>
    decreases s.len(),
{
    if s.len() == 0 || flags.len() == 0 {
        Seq::empty()
    } else {
        let tail = filter_flags(s.skip(1), flags.skip(1), keep);
        if flags[0] == keep {
            seq![s[0]] + tail
        } else {
            tail
        }
    }
}

/// `kept` and `relevant` split `attrs` by some outcome of the predicate:
/// the flags record what the predicate answered for each attribute.
pub open spec fn attrs_split_by<F: Fn(&Attr) -> bool>(
    pred: F,
    attrs: Seq<Attr>,
    kept: Seq<Attr>,
    relevant: Seq<Attr>,
) -> bool {
    exists|flags: Seq<bool>|
        {
            &&& flags.len() == attrs.len()
            &&& (forall|i: int|
                0 <= i < flags.len() ==> pred.ensures((&attrs[i],), #[trigger] flags[i]))
            &&& kept == filter_flags(attrs, flags, false)
            &&& relevant == filter_flags(attrs, flags, true)
        }
}

/// Extending a split by one more attribute and its flag.
proof fn lemma_filter_flags_push(s: Seq<Attr>, flags: Seq<bool>, a: Attr, b: bool, keep: bool)
    requires
        s.len() == flags.len(),
    ensures
        filter_flags(s.push(a), flags.push(b), keep) == filter_flags(s, flags, keep) + (if b
            == keep {
            seq![a]
        } else {
            Seq::<Attr>::empty()
        }),
    decreases s.len(),
{
    if s.len() == 0 {
        assert(s.push(a).skip(1) =~= Seq::<Attr>::empty());
        assert(flags.push(b).skip(1) =~= Seq::<bool>::empty());
        assert(filter_flags(s.push(a).skip(1), flags.push(b).skip(1), keep) =~= Seq::<
            Attr,
        >::empty());
        if b == keep {
            assert(filter_flags(s.push(a), flags.push(b), keep) =~= filter_flags(s, flags, keep)
                + seq![a]);
        } else {
            assert(filter_flags(s.push(a), flags.push(b), keep) =~= filter_flags(s, flags, keep)
                + Seq::<Attr>::empty());
        }
    } else {
        lemma_filter_flags_push(s.skip(1), flags.skip(1), a, b, keep);
        assert(s.push(a).skip(1) =~= s.skip(1).push(a));
        assert(flags.push(b).skip(1) =~= flags.skip(1).push(b));
        if flags[0] == keep {
            assert(filter_flags(s.push(a), flags.push(b), keep) =~= filter_flags(s, flags, keep)
                + (if b == keep {
                seq![a]
            } else {
                Seq::<Attr>::empty()
            }));
        } else {
            assert(filter_flags(s.push(a), flags.push(b), keep) =~= filter_flags(s, flags, keep)
                + (if b == keep {
                seq![a]
            } else {
                Seq::<Attr>::empty()
            }));
        }
    }
}

/// Split the attributes by what the predicate answers for each: the
/// unclaimed attributes and the claimed ones, both in order.
fn partition_attrs<F: Fn(&Attr) -> bool>(attrs: Vec<Attr>, predicate: &F) -> (r: (
    Vec<Attr>,
    Vec<Attr>,
))
    requires
        forall|a: &Attr| #[trigger] predicate.requires((a,)),
    ensures
        attrs_split_by(*predicate, attrs@, r.0@, r.1@),
{
    let ghost attrs0 = attrs@;
    let mut rem = attrs;
    let mut kept: Vec<Attr> = Vec::new();
    let mut relevant: Vec<Attr> = Vec::new();
    let ghost mut flags: Seq<bool> = Seq::empty();
    proof {
        assert(attrs0.take(0) =~= Seq::<Attr>::empty());
        assert(filter_flags(attrs0.take(0), flags, false) =~= Seq::<Attr>::empty());
        assert(filter_flags(attrs0.take(0), flags, true) =~= Seq::<Attr>::empty());
    }
    while rem.len() > 0
        invariant
            forall|a: &Attr| #[trigger] predicate.requires((a,)),
            rem@.len() <= attrs0.len(),
            attrs0.skip(attrs0.len() - rem@.len()) == rem@,
            flags.len() == attrs0.len() - rem@.len(),
            forall|i: int|
                0 <= i < flags.len() ==> predicate.ensures((&attrs0[i],), #[trigger] flags[i]),
            kept@ == filter_flags(attrs0.take(flags.len() as int), flags, false),
            relevant@ == filter_flags(attrs0.take(flags.len() as int), flags, true),
        decreases rem@.len(),
    {
        let ghost done = flags.len() as int;
        let head = rem.remove(0);
        proof {
            assert(head == attrs0[done]);
            assert(attrs0.skip(attrs0.len() - rem@.len()) =~= rem@);
        }
        let keep = predicate(&head);
        proof {
            lemma_filter_flags_push(attrs0.take(done), flags, head, keep, false);
            lemma_filter_flags_push(attrs0.take(done), flags, head, keep, true);
            assert(attrs0.take(done).push(attrs0[done]) =~= attrs0.take(done + 1));
            flags = flags.push(keep);
        }
        if keep {
            relevant.push(head);
            proof {
                assert(kept@ + Seq::<Attr>::empty() =~= kept@);
            }
        } else {
            kept.push(head);
            proof {
                assert(relevant@ + Seq::<Attr>::empty() =~= relevant@);
            }
        }
    }
    proof {
        assert(attrs0.take(flags.len() as int) =~= attrs0);
    }
    (kept, relevant)
}

impl<O: AttributeOptions> FieldWithOpts<O> {
    /// Construct from the given field using the attributes the predicate
    /// claims; the remaining attributes stay on the field.
    pub fn from_predicate<F: Fn(&Attr) -> bool>(field: FieldDef, predicate: F) -> (r: Result<
        Self,
        ParseError,
    >)
        requires
            forall|a: &Attr| #[trigger] predicate.requires((a,)),
        ensures
            (exists|kept: Seq<Attr>, relevant: Seq<Attr>|
                {
                    &&& attrs_split_by(predicate, field.attrs@, kept, relevant)
                    &&& (match r {
                        Ok(v) => {
                            &&& v.field.ident == field.ident
                            &&& v.field.attrs@ == kept
                            &&& O::attrs_ok(relevant)
                            &&& O::attrs_value(relevant, v.options)
                        },
                        Err(e) => !O::attrs_ok(relevant) && e@ == O::attrs_err(relevant),
                    })
                }),
    {
        let FieldDef { ident, attrs } = field;
        let (kept, relevant) = partition_attrs(attrs, &predicate);
        match O::from_iter(relevant) {
            Ok(options) => Ok(FieldWithOpts { field: FieldDef { ident, attrs: kept }, options }),
            Err(e) => Err(e),
        }
    }

    /// [`from_predicate`](Self::from_predicate) filtering by attribute
    /// name: the attributes named `attr_name` are decoded, the rest stay
    /// on the field.
    pub fn from_attr_name(field: FieldDef, attr_name: &str) -> (r: Result<Self, ParseError>)
        ensures
            ({
                let relevant = named_attrs(field.attrs@, attr_name@);
                &&& (r is Ok <==> O::attrs_ok(relevant))
                &&& (match r {
                    Ok(v) => {
                        &&& v.field.ident == field.ident
                        &&& v.field.attrs@ == other_attrs(field.attrs@, attr_name@)
                        &&& O::attrs_value(relevant, v.options)
                    },
                    Err(e) => e@ == O::attrs_err(relevant),
                })
            }),
    {
        let FieldDef { ident, attrs } = field;
        let (kept, relevant) = split_named(attrs, attr_name);
        match O::from_iter(relevant) {
            Ok(options) => Ok(FieldWithOpts { field: FieldDef { ident, attrs: kept }, options }),
            Err(e) => Err(e),
        }
    }
}

/// The attributes not named by the single identifier `name`, in order.
pub open spec fn other_attrs(attrs: Seq<Attr>, name: Seq<char>) -> Seq<Attr>
    decreases attrs.len(),
{
    if attrs.len() == 0 {
        Seq::empty()
    } else {
        let tail = other_attrs(attrs.skip(1), name);
        if attr_is_named(attrs[0], name) {
            tail
        } else {
            seq![attrs[0]] + tail
        }
    }
}

/// Split attributes into those not named `name` and those named so, both
/// in order.
fn split_named(attrs: Vec<Attr>, name: &str) -> (r: (Vec<Attr>, Vec<Attr>))
    ensures
        r.0@ == other_attrs(attrs@, name@),
        r.1@ == named_attrs(attrs@, name@),
    decreases attrs@.len(),
{
    let ghost attrs0 = attrs@;
    let mut attrs = attrs;
    if attrs.len() == 0 {
        let kept: Vec<Attr> = Vec::new();
        let relevant: Vec<Attr> = Vec::new();
        return (kept, relevant);
    }
    let head = attrs.remove(0);
    proof {
        assert(attrs@ =~= attrs0.skip(1));
    }
    let matches_name = head.path_is_ident(name);
    let (tail_kept, tail_relevant) = split_named(attrs, name);
    if matches_name {
        let ghost rel_view = tail_relevant@;
        let mut relevant = tail_relevant;
        relevant.insert(0, head);
        proof {
            assert(relevant@ =~= seq![attrs0[0]] + rel_view);
        }
        (tail_kept, relevant)
    } else {
        let ghost kept_view = tail_kept@;
        let mut kept = tail_kept;
        kept.insert(0, head);
        proof {
            assert(kept@ =~= seq![attrs0[0]] + kept_view);
        }
        (kept, tail_relevant)
    }
}

/// Each source field decoded in order, under the name filter.
pub open spec fn fields_with_opts_match<O: AttributeOptions>(
    src: Seq<FieldDef>,
    out: Seq<FieldWithOpts<O>>,
    name: Seq<char>,
) -> bool
    decreases src.len(),
{
    if src.len() == 0 {
        out.len() == 0
    } else {
        &&& out.len() > 0
        &&& out[0].field.ident == src[0].ident
        &&& out[0].field.attrs@ == other_attrs(src[0].attrs@, name)
        &&& O::attrs_ok(named_attrs(src[0].attrs@, name))
        &&& O::attrs_value(named_attrs(src[0].attrs@, name), out[0].options)
        &&& fields_with_opts_match::<O>(src.skip(1), out.skip(1), name)
    }
}

/// Every source field's named attributes decode.
pub open spec fn fields_with_opts_ok<O: AttributeOptions>(
    src: Seq<FieldDef>,
    name: Seq<char>,
) -> bool
    decreases src.len(),
{
    if src.len() == 0 {
        true
    } else {
        O::attrs_ok(named_attrs(src[0].attrs@, name)) && fields_with_opts_ok::<O>(
            src.skip(1),
            name,
        )
    }
}

/// The diagnostic of the first source field whose named attributes are
/// rejected.
pub open spec fn fields_with_opts_err<O: AttributeOptions>(
    src: Seq<FieldDef>,
    name: Seq<char>,
) -> Seq<char>
    decreases src.len(),
{
    if src.len() == 0 {
        Seq::empty()
    } else if !O::attrs_ok(named_attrs(src[0].attrs@, name)) {
        O::attrs_err(named_attrs(src[0].attrs@, name))
    } else {
        fields_with_opts_err::<O>(src.skip(1), name)
    }
}

/// Decode each field of a list in order, stopping at the first rejection.
fn fields_list_from_name<O: AttributeOptions>(fields: Vec<FieldDef>, attr_name: &str) -> (r: Result<
    Vec<FieldWithOpts<O>>,
    ParseError,
>)
    ensures
        r is Ok <==> fields_with_opts_ok::<O>(fields@, attr_name@),
        (match r {
            Ok(out) => fields_with_opts_match::<O>(fields@, out@, attr_name@),
            Err(e) => e@ == fields_with_opts_err::<O>(fields@, attr_name@),
        }),
    decreases fields@.len(),
{
    let ghost fields0 = fields@;
    let mut fields = fields;
    if fields.len() == 0 {
        let out: Vec<FieldWithOpts<O>> = Vec::new();
        return Ok(out);
    }
    let head = fields.remove(0);
    proof {
        assert(fields@ =~= fields0.skip(1));
    }
    let decoded = match FieldWithOpts::<O>::from_attr_name(head, attr_name) {
        Ok(v) => v,
        Err(e) => {
            return Err(e);
        },
    };
    match fields_list_from_name::<O>(fields, attr_name) {
        Ok(tail) => {
            let ghost tail_view = tail@;
            let mut out = tail;
            out.insert(0, decoded);
            proof {
                assert(out@.skip(1) =~= tail_view);
            }
            Ok(out)
        },
        Err(e) => Err(e),
    }
}

/// Each source field decoded in order under the predicate: some split of
/// its attributes answers the predicate, the claimed part decodes, and
/// the rest stays on the field.
pub open spec fn fields_pred_match<O: AttributeOptions, F: Fn(&Attr) -> bool>(
    pred: F,
    src: Seq<FieldDef>,
    out: Seq<FieldWithOpts<O>>,
) -> bool
    decreases src.len(),
{
    if src.len() == 0 {
        out.len() == 0
    } else {
        &&& out.len() > 0
        &&& (exists|kept: Seq<Attr>, relevant: Seq<Attr>|
            {
                &&& attrs_split_by(pred, src[0].attrs@, kept, relevant)
                &&& out[0].field.ident == src[0].ident
                &&& out[0].field.attrs@ == kept
                &&& O::attrs_ok(relevant)
                &&& O::attrs_value(relevant, out[0].options)
            })
        &&& fields_pred_match::<O, F>(pred, src.skip(1), out.skip(1))
    }
}

/// `m` is the diagnostic of the first field whose claimed attributes are
/// rejected under the predicate.
pub open spec fn fields_pred_err<O: AttributeOptions, F: Fn(&Attr) -> bool>(
    pred: F,
    src: Seq<FieldDef>,
    m: Seq<char>,
) -> bool
    decreases src.len(),
{
    if src.len() == 0 {
        false
    } else {
        exists|kept: Seq<Attr>, relevant: Seq<Attr>|
            {
                &&& attrs_split_by(pred, src[0].attrs@, kept, relevant)
                &&& (if !O::attrs_ok(relevant) {
                    m == O::attrs_err(relevant)
                } else {
                    fields_pred_err::<O, F>(pred, src.skip(1), m)
                })
            }
    }
}

/// Decode each field of a list in order under the predicate.
fn fields_list_from_predicate<O: AttributeOptions, F: Fn(&Attr) -> bool>(
    fields: Vec<FieldDef>,
    predicate: &F,
) -> (r: Result<Vec<FieldWithOpts<O>>, ParseError>)
    requires
        forall|a: &Attr| #[trigger] predicate.requires((a,)),
    ensures
        (match r {
            Ok(out) => fields_pred_match::<O, F>(*predicate, fields@, out@),
            Err(e) => fields_pred_err::<O, F>(*predicate, fields@, e@),
        }),
    decreases fields@.len(),
{
    let ghost fields0 = fields@;
    let mut fields = fields;
    if fields.len() == 0 {
        let out: Vec<FieldWithOpts<O>> = Vec::new();
        return Ok(out);
    }
    let head = fields.remove(0);
    proof {
        assert(fields@ =~= fields0.skip(1));
    }
    let FieldDef { ident, attrs } = head;
    let (kept, relevant) = partition_attrs(attrs, predicate);
    let options = match O::from_iter(relevant) {
        Ok(options) => options,
        Err(e) => {
            return Err(e);
        },
    };
    let decoded = FieldWithOpts { field: FieldDef { ident, attrs: kept }, options };
    match fields_list_from_predicate::<O, F>(fields, predicate) {
        Ok(tail) => {
            let ghost tail_view = tail@;
            let mut out = tail;
            out.insert(0, decoded);
            proof {
                assert(out@.skip(1) =~= tail_view);
            }
            Ok(out)
        },
        Err(e) => Err(e),
    }
}

impl<O: AttributeOptions> FieldsWithOpts<O> {
    /// Construct from the given field list using the attributes the
    /// predicate claims on each field; the remaining attributes stay on
    /// the fields.
    pub fn from_predicate<F: Fn(&Attr) -> bool>(
        fields: crate::extract_fields::FieldsDef,
        predicate: F,
    ) -> (r: Result<Self, ParseError>)
        requires
            forall|a: &Attr| #[trigger] predicate.requires((a,)),
        ensures
            (match fields {
                crate::extract_fields::FieldsDef::Named(n) => (match r {
                    Ok(v) => v matches FieldsWithOpts::Named(out) && fields_pred_match::<O, F>(
                        predicate,
                        n.fields@,
                        out@,
                    ),
                    Err(e) => fields_pred_err::<O, F>(predicate, n.fields@, e@),
                }),
                crate::extract_fields::FieldsDef::Unnamed(u) => (match r {
                    Ok(v) => v matches FieldsWithOpts::Unnamed(out) && fields_pred_match::<O, F>(
                        predicate,
                        u.fields@,
                        out@,
                    ),
                    Err(e) => fields_pred_err::<O, F>(predicate, u.fields@, e@),
                }),
                crate::extract_fields::FieldsDef::Unit => r matches Ok(v) && v is Unit,
            }),
    {
        match fields {
            crate::extract_fields::FieldsDef::Named(n) => match fields_list_from_predicate::<
                O,
                F,
            >(n.fields, &predicate) {
                Ok(out) => Ok(FieldsWithOpts::Named(out)),
                Err(e) => Err(e),
            },
            crate::extract_fields::FieldsDef::Unnamed(u) => match fields_list_from_predicate::<
                O,
                F,
            >(u.fields, &predicate) {
                Ok(out) => Ok(FieldsWithOpts::Unnamed(out)),
                Err(e) => Err(e),
            },
            crate::extract_fields::FieldsDef::Unit => Ok(FieldsWithOpts::Unit),
        }
    }

    /// Construct from the given field list, decoding each field's
    /// attributes named `attr_name`; the remaining attributes stay on the
    /// fields.
    pub fn from_attr_name(fields: crate::extract_fields::FieldsDef, attr_name: &str) -> (r: Result<
        Self,
        ParseError,
    >)
        ensures
            (match fields {
                crate::extract_fields::FieldsDef::Named(n) => {
                    &&& (r is Ok <==> fields_with_opts_ok::<O>(n.fields@, attr_name@))
                    &&& (match r {
                        Ok(v) => v matches FieldsWithOpts::Named(out) && fields_with_opts_match::<
                            O,
                        >(n.fields@, out@, attr_name@),
                        Err(e) => e@ == fields_with_opts_err::<O>(n.fields@, attr_name@),
                    })
                },
                crate::extract_fields::FieldsDef::Unnamed(u) => {
                    &&& (r is Ok <==> fields_with_opts_ok::<O>(u.fields@, attr_name@))
                    &&& (match r {
                        Ok(v) => v matches FieldsWithOpts::Unnamed(out) && fields_with_opts_match::<
                            O,
                        >(u.fields@, out@, attr_name@),
                        Err(e) => e@ == fields_with_opts_err::<O>(u.fields@, attr_name@),
                    })
                },
                crate::extract_fields::FieldsDef::Unit => r matches Ok(v) && v is Unit,
            }),
    {
        match fields {
            crate::extract_fields::FieldsDef::Named(n) => match fields_list_from_name::<O>(
                n.fields,
                attr_name,
            ) {
                Ok(out) => Ok(FieldsWithOpts::Named(out)),
                Err(e) => Err(e),
            },
            crate::extract_fields::FieldsDef::Unnamed(u) => match fields_list_from_name::<O>(
                u.fields,
                attr_name,
            ) {
                Ok(out) => Ok(FieldsWithOpts::Unnamed(out)),
                Err(e) => Err(e),
            },
            crate::extract_fields::FieldsDef::Unit => Ok(FieldsWithOpts::Unit),
        }
    }
}

} // verus!
