use vstd::prelude::*;

use crate::derive::default_option::DefaultOption;
use crate::derive::fields::{fields_error, fields_match, fields_ok, named_fields_wf, Field, Fields};
use crate::errors::ParseError;
use crate::extract_fields::DeriveInputDef;
use crate::meta::AttrPath;
use crate::tokens::{Delim, TokenNode};

verus! {

/// The parsed input of the options-from-attributes derive: the annotated
/// struct's name, generics and classified fields.
pub struct AttrOptionsDerive {
    ident: String,
    generics: Vec<TokenNode>,
    fields: Fields,
}

impl AttrOptionsDerive {
    /// The annotated struct's name.
    pub closed spec fn spec_ident(&self) -> Seq<char> {
        self.ident@
    }

    /// The annotated struct's generics tokens.
    pub closed spec fn spec_generics(&self) -> Seq<TokenNode> {
        self.generics@
    }

    /// The classified fields.
    pub closed spec fn spec_fields(&self) -> &Fields {
        &self.fields
    }

    /// Read a derive input for the options-from-attributes derive: keep
    /// its name and generics, and classify its fields.
    pub fn parse(input: DeriveInputDef) -> (r: Result<Self, ParseError>)
        requires
            named_fields_wf(input.data),
        ensures
            r is Ok <==> fields_ok(input.data),
            (match r {
                Ok(v) => {
                    &&& v.spec_ident() == input.ident@
                    &&& v.spec_generics() == input.generics@
                    &&& fields_match(input.data, *v.spec_fields())
                },
                Err(e) => fields_error(input.data, e@),
            }),
    {
        let DeriveInputDef { ident, generics, data, .. } = input;
        match Fields::try_from(data) {
            Ok(fields) => Ok(AttrOptionsDerive { ident, generics, fields }),
            Err(e) => Err(e),
        }
    }

    /// The annotated struct's name.
    pub fn ident(&self) -> (r: &str)
        ensures
            r@ == self.spec_ident(),
    {
        self.ident.as_str()
    }

    /// The annotated struct's generics tokens.
    pub fn generics(&self) -> (r: &Vec<TokenNode>)
        ensures
            r@ == self.spec_generics(),
    {
        &self.generics
    }

    /// The classified fields.
    pub fn fields(&self) -> (r: &Fields)
        ensures
            r == self.spec_fields(),
    {
        &self.fields
    }
}

/// Whether generated decoding code needs the caller's span for an error
/// about a missing required option.
pub open spec fn spec_omit_default(f: Field) -> bool {
    f.opts.default matches Some(d) && d == DefaultOption::Explicit(false)
}

/// Does any field disable its default, so that the generated decoder must
/// carry a span for the missing-attribute error?
pub fn any_omit_default(fields: &Vec<Field>) -> (r: bool)
    ensures
        r == exists|i: int| 0 <= i < fields@.len() && spec_omit_default(#[trigger] fields@[i]),
{
    let mut i: usize = 0;
    while i < fields.len()
        invariant
            i <= fields@.len(),
            forall|j: int| 0 <= j < i ==> !spec_omit_default(#[trigger] fields@[j]),
        decreases fields@.len() - i,
    {
        if fields[i].omit_default_field() {
            return true;
        }
        i = i + 1;
    }
    false
}

/// How the generated decoder initialises one field once all options were
/// read.
pub enum FieldInit {
    /// Take the decoded value, or the standard default if none came.
    UnwrapOrDefault,
    /// Insist on a decoded value; without one, fail with the carried
    /// missing-attribute message.
    Required(String),
    /// Take the decoded value, or call the carried function for one.
    DefaultFn(AttrPath),
}

impl Field {
    /// Whether this field's default is disabled.
    pub fn omit_default_field(&self) -> (r: bool)
        ensures
            r == spec_omit_default(*self),
    {
        self.opts.omit_default()
    }

    /// How the generated decoder initialises this field: from its decoded
    /// value with a standard default, with a missing-attribute error, or
    /// through a default function.
    pub fn init_strategy(&self) -> (r: FieldInit)
        ensures
            (match self.opts.default {
                None => r is UnwrapOrDefault,
                Some(d) => match d {
                    DefaultOption::Implicit => r is UnwrapOrDefault,
                    DefaultOption::Explicit(b) => if b {
                        r is UnwrapOrDefault
                    } else {
                        r matches FieldInit::Required(msg) && msg@
                            == "Missing required attribute: "@ + (match self.opts.rename {
                            Some(lit) => lit@,
                            None => self.ident@,
                        })
                    },
                    DefaultOption::Path(p) => r matches FieldInit::DefaultFn(p2) && p2@ == p@,
                },
            }),
    {
        match &self.opts.default {
            None => FieldInit::UnwrapOrDefault,
            Some(DefaultOption::Implicit) => FieldInit::UnwrapOrDefault,
            Some(DefaultOption::Explicit(true)) => FieldInit::UnwrapOrDefault,
            Some(DefaultOption::Explicit(false)) => {
                let mut msg = String::new();
                msg.append("Missing required attribute: ");
                match &self.opts.rename {
                    Some(lit) => msg.append(lit.repr()),
                    None => msg.append(self.ident.as_str()),
                }
                proof {
                    assert(msg@ =~= "Missing required attribute: "@ + (match self.opts.rename {
                        Some(lit) => lit@,
                        None => self.ident@,
                    }));
                }
                FieldInit::Required(msg)
            },
            Some(DefaultOption::Path(p)) => FieldInit::DefaultFn(p.clone_path()),
        }
    }
}

impl Fields {
    /// The named fields, or the delimiter to render an empty body with:
    /// an empty field list keeps its delimiter, a unit struct has none.
    pub fn named_fields(&self) -> (r: Result<&Vec<Field>, Option<Delim>>)
        ensures
            (match self {
                Fields::Named(fields) => r matches Ok(v) && v == fields,
                Fields::Empty(d) => r == Err::<&Vec<Field>, _>(Some(*d)),
                Fields::Unit => r == Err::<&Vec<Field>, Option<Delim>>(None),
            }),
    {
        match self {
            Fields::Named(fields) => Ok(fields),
            Fields::Empty(d) => Err(Some(*d)),
            Fields::Unit => Err(None),
        }
    }
}

/// The decimal spelling of `n`.
pub open spec fn spec_udec(n: nat) -> Seq<char>
    decreases n,
{
    if n < 10 {
        seq![spec_digit(n)]
    } else {
        spec_udec(n / 10) + seq![spec_digit(n % 10)]
    }
}

/// The digit character for a value below ten.
pub open spec fn spec_digit(n: nat) -> char {
    if n == 0 {
        '0'
    } else if n == 1 {
        '1'
    } else if n == 2 {
        '2'
    } else if n == 3 {
        '3'
    } else if n == 4 {
        '4'
    } else if n == 5 {
        '5'
    } else if n == 6 {
        '6'
    } else if n == 7 {
        '7'
    } else if n == 8 {
        '8'
    } else {
        '9'
    }
}

/// Append the decimal spelling of `n`.
fn push_udec(n: usize, out: &mut String)
    ensures
        final(out)@ == old(out)@ + spec_udec(n as nat),
    decreases n,
{
    if n >= 10 {
        push_udec(n / 10, out);
    }
    let ghost before = out@;
    let d = n % 10;
    if d == 0 {
        out.append("0");
    } else if d == 1 {
        out.append("1");
    } else if d == 2 {
        out.append("2");
    } else if d == 3 {
        out.append("3");
    } else if d == 4 {
        out.append("4");
    } else if d == 5 {
        out.append("5");
    } else if d == 6 {
        out.append("6");
    } else if d == 7 {
        out.append("7");
    } else if d == 8 {
        out.append("8");
    } else {
        out.append("9");
    }
    proof {
        reveal_strlit("0");
        reveal_strlit("1");
        reveal_strlit("2");
        reveal_strlit("3");
        reveal_strlit("4");
        reveal_strlit("5");
        reveal_strlit("6");
        reveal_strlit("7");
        reveal_strlit("8");
        reveal_strlit("9");
        assert(out@ =~= before + seq![spec_digit((n % 10) as nat)]);
        if n >= 10 {
            assert(out@ =~= old(out)@ + spec_udec(n as nat));
        } else {
            assert(out@ =~= old(out)@ + spec_udec(n as nat));
        }
    }
}

/// The variable name the generated decoder uses for the field at `idx`:
/// `field` followed by the index in decimal.
pub fn field_ident_at(idx: usize) -> (r: String)
    ensures
        r@ == "field"@ + spec_udec(idx as nat),
{
    let mut out = String::new();
    out.append("field");
    push_udec(idx, &mut out);
    proof {
        assert(out@ =~= "field"@ + spec_udec(idx as nat));
    }
    out
}

} // verus!
