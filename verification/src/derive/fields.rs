use vstd::prelude::*;

use crate::derive::field_opts::FieldOpts;
use crate::errors::ParseError;
use crate::extract_fields::{DataDef, FieldsDef};
use crate::meta::Attr;
use crate::parse_option::AttributeOptions;
use crate::tokens::{Delim, StrLit};

verus! {

/// One named field of the derive input, with its options decoded.
#[derive(Debug)]
pub struct Field {
    /// The field name.
    pub ident: String,
    /// The field's decoded `attr_opts` options.
    pub opts: FieldOpts,
}

/// The field list that the option-deriving generators distinguish.
#[derive(Debug)]
pub enum Fields {
    /// A unit struct.
    Unit,
    /// A struct with an empty field list, and the delimiter it was
    /// written with.
    Empty(Delim),
    /// Named fields with their options.
    Named(Vec<Field>),
}

/// Every field of the sequence carries a name.
pub open spec fn fields_named(src: Seq<crate::extract_fields::FieldDef>) -> bool
    decreases src.len(),
{
    if src.len() == 0 {
        true
    } else {
        src[0].ident is Some && fields_named(src.skip(1))
    }
}

/// Every named field of the data carries a name.
pub open spec fn named_fields_wf(data: DataDef) -> bool {
    data matches DataDef::Struct(f) ==> (f matches FieldsDef::Named(n) ==> fields_named(n.fields@))
}

/// The option attributes of one source field: those named `attr_opts`.
pub open spec fn spec_field_attrs(attrs: Seq<Attr>) -> Seq<Attr> {
    crate::parse_option::named_attrs(attrs, "attr_opts"@)
}

/// The options of every field in the sequence decode.
pub open spec fn fields_all_ok(src: Seq<crate::extract_fields::FieldDef>) -> bool
    decreases src.len(),
{
    if src.len() == 0 {
        true
    } else {
        FieldOpts::attrs_ok(spec_field_attrs(src[0].attrs@)) && fields_all_ok(src.skip(1))
    }
}

/// `decoded` is the fieldwise decoding of `src`.
pub open spec fn fields_decoded(
    src: Seq<crate::extract_fields::FieldDef>,
    decoded: Seq<Field>,
) -> bool
    decreases src.len(),
{
    if src.len() == 0 {
        decoded.len() == 0
    } else {
        &&& decoded.len() > 0
        &&& field_decoded(src[0], decoded[0])
        &&& fields_decoded(src.skip(1), decoded.skip(1))
    }
}

/// `m` is the diagnostic of the first field of `src` whose options are
/// rejected.
pub open spec fn fields_first_error(src: Seq<crate::extract_fields::FieldDef>, m: Seq<char>) -> bool
    decreases src.len(),
{
    if src.len() == 0 {
        false
    } else if !FieldOpts::attrs_ok(spec_field_attrs(src[0].attrs@)) {
        field_errors(src[0], m)
    } else {
        fields_first_error(src.skip(1), m)
    }
}

/// Which derive inputs the field classification accepts.
pub open spec fn fields_ok(data: DataDef) -> bool {
    match data {
        DataDef::Struct(f) => match f {
            FieldsDef::Named(n) => fields_all_ok(n.fields@),
            FieldsDef::Unnamed(u) => u.fields@.len() == 0,
            FieldsDef::Unit => true,
        },
        _ => false,
    }
}

/// `fs` is the classification of the accepted derive input `data`.
pub open spec fn fields_match(data: DataDef, fs: Fields) -> bool {
    match data {
        DataDef::Struct(f) => match f {
            FieldsDef::Named(n) => {
                if n.fields@.len() == 0 {
                    fs is Empty && fs->Empty_0 is Brace
                } else {
                    fs matches Fields::Named(decoded) && fields_decoded(n.fields@, decoded@)
                }
            },
            FieldsDef::Unnamed(u) => u.fields@.len() == 0 && fs is Empty && fs->Empty_0 is Paren,
            FieldsDef::Unit => fs is Unit,
        },
        _ => false,
    }
}

/// `m` is the diagnostic that classifying the rejected derive input
/// `data` reports.
pub open spec fn fields_error(data: DataDef, m: Seq<char>) -> bool {
    match data {
        DataDef::Struct(f) => match f {
            FieldsDef::Named(n) => n.fields@.len() > 0 && fields_first_error(n.fields@, m),
            FieldsDef::Unnamed(u) => u.fields@.len() > 0 && m == "Tuple structs not supported"@,
            FieldsDef::Unit => false,
        },
        DataDef::Enum(_) => m == "Enums not supported"@,
        DataDef::Union(_) => m == "Unions not supported"@,
    }
}

impl Fields {
    /// Classify a derive input's data the way the option-deriving
    /// generators need it: named fields are decoded, tuple structs and
    /// non-structs are rejected with their own messages.
    pub fn try_from(data: DataDef) -> (r: Result<Fields, ParseError>)
        requires
            named_fields_wf(data),
        ensures
            r is Ok <==> fields_ok(data),
            (match r {
                Ok(fs) => fields_match(data, fs),
                Err(e) => fields_error(data, e@),
            }),
    {
        match data {
            DataDef::Struct(s) => match s {
                FieldsDef::Named(f) => {
                    if f.fields.len() == 0 {
                        Ok(Fields::Empty(Delim::Brace))
                    } else {
                        Fields::from_named(f.fields)
                    }
                },
                FieldsDef::Unnamed(f) => {
                    if f.fields.len() == 0 {
                        Ok(Fields::Empty(Delim::Paren))
                    } else {
                        Err(ParseError::new("Tuple structs not supported"))
                    }
                },
                FieldsDef::Unit => Ok(Fields::Unit),
            },
            DataDef::Enum(_) => Err(ParseError::new("Enums not supported")),
            DataDef::Union(_) => Err(ParseError::new("Unions not supported")),
        }
    }

    /// Decode the options of each named field in order, stopping at the
    /// first field whose options are rejected.
    fn from_named(fields: Vec<crate::extract_fields::FieldDef>) -> (r: Result<Fields, ParseError>)
        requires
            fields_named(fields@),
        ensures
            r is Ok <==> fields_all_ok(fields@),
            (match r {
                Ok(fs) => fs matches Fields::Named(decoded) && fields_decoded(fields@, decoded@),
                Err(e) => fields_first_error(fields@, e@),
            }),
    {
        match Fields::decode_fields(fields) {
            Ok(decoded) => Ok(Fields::Named(decoded)),
            Err(e) => Err(e),
        }
    }

    /// The fieldwise decoding behind [`Fields::from_named`].
    fn decode_fields(fields: Vec<crate::extract_fields::FieldDef>) -> (r: Result<
        Vec<Field>,
        ParseError,
    >)
        requires
            fields_named(fields@),
        ensures
            r is Ok <==> fields_all_ok(fields@),
            (match r {
                Ok(decoded) => fields_decoded(fields@, decoded@),
                Err(e) => fields_first_error(fields@, e@),
            }),
        decreases fields@.len(),
    {
        let ghost fields0 = fields@;
        let mut fields = fields;
        if fields.len() == 0 {
            let decoded: Vec<Field> = Vec::new();
            return Ok(decoded);
        }
        let head = fields.remove(0);
        let ghost ghead = head;
        proof {
            assert(fields@ =~= fields0.skip(1));
        }
        let opts = match FieldOpts::from_iter_named("attr_opts", head.attrs) {
            Ok(opts) => opts,
            Err(e) => {
                return Err(e);
            },
        };
        let ident = match head.ident {
            Some(ident) => ident,
            None => {
                return Err(ParseError::new("expected named field"));
            },
        };
        match Fields::decode_fields(fields) {
            Ok(tail) => {
                let ghost tail_view = tail@;
                let mut decoded = tail;
                decoded.insert(0, Field { ident, opts });
                proof {
                    assert(decoded@.skip(1) =~= tail_view);
                    assert(field_decoded(fields0[0], decoded@[0]));
                }
                Ok(decoded)
            },
            Err(e) => Err(e),
        }
    }
}

/// `f` is the decoded form of the source field `src`: the same name, with
/// options decoded from the `attr_opts` attributes.
pub open spec fn field_decoded(src: crate::extract_fields::FieldDef, f: Field) -> bool {
    &&& src.ident matches Some(name) && f.ident@ == name@
    &&& FieldOpts::attrs_ok(spec_field_attrs(src.attrs@))
    &&& FieldOpts::attrs_value(spec_field_attrs(src.attrs@), f.opts)
}

/// `m` is the diagnostic that decoding the source field `src` reports.
pub open spec fn field_errors(src: crate::extract_fields::FieldDef, m: Seq<char>) -> bool {
    &&& !FieldOpts::attrs_ok(spec_field_attrs(src.attrs@))
    &&& m == FieldOpts::attrs_err(spec_field_attrs(src.attrs@))
}

impl Field {
    /// The option name this field answers to, as a string literal: the
    /// rename literal as written, or the field's own name in quotes.
    pub fn resolved_label(&self) -> (r: StrLit)
        ensures
            (match self.opts.rename {
                Some(lit) => r@ == lit@,
                None => r@ == seq!['"'] + self.ident@ + seq!['"'],
            }),
    {
        match &self.opts.rename {
            Some(lit) => StrLit::from_repr(lit.repr().to_owned()),
            None => {
                let mut out = String::new();
                out.append("\"");
                out.append(self.ident.as_str());
                out.append("\"");
                proof {
                    reveal_strlit("\"");
                    assert("\""@ =~= seq!['"']);
                    assert(out@ =~= seq!['"'] + self.ident@ + seq!['"']);
                }
                StrLit::from_repr(out)
            },
        }
    }
}

} // verus!
