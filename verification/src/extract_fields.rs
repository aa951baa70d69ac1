//! Utilities for extracting specific kinds of fields from a derive input.

use vstd::prelude::*;

use crate::errors::ParseError;
use crate::meta::Attr;
use crate::tokens::TokenNode;

verus! {

/// One field of a derive input: its name, when it has one, and its
/// attributes.
#[derive(Debug, PartialEq, Eq)]
pub struct FieldDef {
    /// The field name; unnamed fields have none.
    pub ident: Option<String>,
    /// The attributes attached to the field.
    pub attrs: Vec<Attr>,
}

/// The named fields of a struct.
#[derive(Debug, PartialEq, Eq)]
pub struct NamedFields {
    /// The fields, in declaration order.
    pub fields: Vec<FieldDef>,
}

/// The unnamed fields of a tuple struct.
#[derive(Debug, PartialEq, Eq)]
pub struct UnnamedFields {
    /// The fields, in declaration order.
    pub fields: Vec<FieldDef>,
}

/// The field list of a struct.
#[derive(Debug, PartialEq, Eq)]
pub enum FieldsDef {
    /// `{ a: .., b: .. }`
    Named(NamedFields),
    /// `( .., .. )`
    Unnamed(UnnamedFields),
    /// A unit struct.
    Unit,
}

/// What an enum contributes to this model: nothing the option logic
/// reads.
#[derive(Debug, PartialEq, Eq)]
pub struct EnumDef {}

/// What a union contributes to this model: nothing the option logic
/// reads.
#[derive(Debug, PartialEq, Eq)]
pub struct UnionDef {}

/// The data of a derive input.
#[derive(Debug, PartialEq, Eq)]
pub enum DataDef {
    /// A struct with its fields.
    Struct(FieldsDef),
    /// An enum.
    Enum(EnumDef),
    /// A union.
    Union(UnionDef),
}

/// A derive input: what the option-deriving generators read of it.
#[derive(Debug, PartialEq, Eq)]
pub struct DeriveInputDef {
    /// The name of the annotated item.
    pub ident: String,
    /// The item's generics, as raw tokens.
    pub generics: Vec<TokenNode>,
    /// The attributes on the item itself.
    pub attrs: Vec<Attr>,
    /// The item's data.
    pub data: DataDef,
}

/// One of two rejection states.
#[derive(Debug, PartialEq, Eq)]
pub enum Rejection<A, B> {
    /// The first rejected shape.
    A(A),
    /// The second rejected shape.
    B(B),
}

/// Convert this rejection into a parse diagnostic.
pub trait ToSynError: Sized {
    /// The message this rejection reports.
    spec fn err_view(&self) -> Seq<char>;

    /// Convert this rejection to a diagnostic.
    fn to_syn_err(&self) -> (r: ParseError)
        ensures
            r@ == self.err_view(),
    ;

    /// Convert this rejection into a diagnostic.
    fn into_syn_err(self) -> (r: ParseError)
        ensures
            r@ == self.err_view(),
    {
        self.to_syn_err()
    }
}

impl ToSynError for Rejection<EnumDef, UnionDef> {
    open spec fn err_view(&self) -> Seq<char> {
        "Only structs supported"@
    }

    fn to_syn_err(&self) -> (r: ParseError) {
        ParseError::new("Only structs supported")
    }
}

impl ToSynError for Rejection<FieldsDef, UnionDef> {
    open spec fn err_view(&self) -> Seq<char> {
        "Only enums supported"@
    }

    fn to_syn_err(&self) -> (r: ParseError) {
        ParseError::new("Only enums supported")
    }
}

impl ToSynError for Rejection<FieldsDef, EnumDef> {
    open spec fn err_view(&self) -> Seq<char> {
        "Only unions supported"@
    }

    fn to_syn_err(&self) -> (r: ParseError) {
        ParseError::new("Only unions supported")
    }
}

impl ToSynError for Rejection<UnnamedFields, ()> {
    open spec fn err_view(&self) -> Seq<char> {
        "Only named fields supported"@
    }

    fn to_syn_err(&self) -> (r: ParseError) {
        ParseError::new("Only named fields supported")
    }
}

impl ToSynError for Rejection<NamedFields, ()> {
    open spec fn err_view(&self) -> Seq<char> {
        "Only unnamed fields supported"@
    }

    fn to_syn_err(&self) -> (r: ParseError) {
        ParseError::new("Only unnamed fields supported")
    }
}

impl DataDef {
    /// Extract a union from a derive input's data.
    pub fn extract_union(self) -> (r: Result<UnionDef, Rejection<FieldsDef, EnumDef>>)
        ensures
            (match self {
                DataDef::Struct(f) => r == Err::<UnionDef, _>(Rejection::<FieldsDef, EnumDef>::A(
                    f,
                )),
                DataDef::Enum(e) => r == Err::<UnionDef, _>(Rejection::<FieldsDef, EnumDef>::B(e)),
                DataDef::Union(u) => r == Ok::<_, Rejection<FieldsDef, EnumDef>>(u),
            }),
    {
        match self {
            DataDef::Struct(data) => Err(Rejection::A(data)),
            DataDef::Enum(data) => Err(Rejection::B(data)),
            DataDef::Union(data) => Ok(data),
        }
    }

    /// Extract a struct's fields from a derive input's data.
    pub fn extract_struct(self) -> (r: Result<FieldsDef, Rejection<EnumDef, UnionDef>>)
        ensures
            (match self {
                DataDef::Struct(f) => r == Ok::<_, Rejection<EnumDef, UnionDef>>(f),
                DataDef::Enum(e) => r == Err::<FieldsDef, _>(Rejection::<EnumDef, UnionDef>::A(e)),
                DataDef::Union(u) => r == Err::<FieldsDef, _>(Rejection::<EnumDef, UnionDef>::B(
                    u,
                )),
            }),
    {
        match self {
            DataDef::Struct(data) => Ok(data),
            DataDef::Enum(data) => Err(Rejection::A(data)),
            DataDef::Union(data) => Err(Rejection::B(data)),
        }
    }

    /// Extract an enum from a derive input's data.
    pub fn extract_enum(self) -> (r: Result<EnumDef, Rejection<FieldsDef, UnionDef>>)
        ensures
            (match self {
                DataDef::Struct(f) => r == Err::<EnumDef, _>(Rejection::<FieldsDef, UnionDef>::A(
                    f,
                )),
                DataDef::Enum(e) => r == Ok::<_, Rejection<FieldsDef, UnionDef>>(e),
                DataDef::Union(u) => r == Err::<EnumDef, _>(Rejection::<FieldsDef, UnionDef>::B(
                    u,
                )),
            }),
    {
        match self {
            DataDef::Struct(data) => Err(Rejection::A(data)),
            DataDef::Enum(data) => Ok(data),
            DataDef::Union(data) => Err(Rejection::B(data)),
        }
    }

    /// Extract the fields of a struct, named or unnamed; unit structs and
    /// non-structs are rejected with their own messages.
    pub fn extract_struct_fields(self) -> (r: Result<Vec<FieldDef>, ParseError>)
        ensures
            (match self {
                DataDef::Struct(f) => match f {
                    FieldsDef::Named(n) => r matches Ok(v) && v == n.fields,
                    FieldsDef::Unnamed(u) => r matches Ok(v) && v == u.fields,
                    FieldsDef::Unit => r matches Err(e) && e@ == "Unit structs not supported"@,
                },
                _ => r matches Err(e) && e@ == "Only structs supported"@,
            }),
    {
        match self.extract_struct() {
            Ok(fields) => fields.extract_any_fields(),
            Err(rej) => Err(rej.to_syn_err()),
        }
    }

    /// Extract the named fields of a struct; everything else is rejected
    /// with its own message.
    pub fn extract_struct_named(self) -> (r: Result<Vec<FieldDef>, ParseError>)
        ensures
            (match self {
                DataDef::Struct(f) => match f {
                    FieldsDef::Named(n) => r matches Ok(v) && v == n.fields,
                    _ => r matches Err(e) && e@ == "Only named fields supported"@,
                },
                _ => r matches Err(e) && e@ == "Only structs supported"@,
            }),
    {
        match self.extract_struct() {
            Ok(fields) => match fields.extract_named_fields() {
                Ok(named) => Ok(named),
                Err(rej) => Err(rej.to_syn_err()),
            },
            Err(rej) => Err(rej.to_syn_err()),
        }
    }

    /// Extract the unnamed fields of a tuple struct; everything else is
    /// rejected with its own message.
    pub fn extract_struct_unnamed(self) -> (r: Result<Vec<FieldDef>, ParseError>)
        ensures
            (match self {
                DataDef::Struct(f) => match f {
                    FieldsDef::Unnamed(u) => r matches Ok(v) && v == u.fields,
                    _ => r matches Err(e) && e@ == "Only unnamed fields supported"@,
                },
                _ => r matches Err(e) && e@ == "Only structs supported"@,
            }),
    {
        match self.extract_struct() {
            Ok(fields) => match fields.extract_unnamed_fields() {
                Ok(unnamed) => Ok(unnamed),
                Err(rej) => Err(rej.to_syn_err()),
            },
            Err(rej) => Err(rej.to_syn_err()),
        }
    }
}

impl FieldsDef {
    /// Extract named fields; unnamed and unit field lists are rejected.
    pub fn extract_named_fields(self) -> (r: Result<Vec<FieldDef>, Rejection<UnnamedFields, ()>>)
        ensures
            (match self {
                FieldsDef::Named(n) => r matches Ok(v) && v == n.fields,
                FieldsDef::Unnamed(u) => r == Err::<Vec<FieldDef>, _>(Rejection::<
                    UnnamedFields,
                    (),
                >::A(u)),
                FieldsDef::Unit => r == Err::<Vec<FieldDef>, _>(Rejection::<UnnamedFields, ()>::B(
                    (),
                )),
            }),
    {
        match self {
            FieldsDef::Named(fields) => Ok(fields.fields),
            FieldsDef::Unnamed(fields) => Err(Rejection::A(fields)),
            FieldsDef::Unit => Err(Rejection::B(())),
        }
    }

    /// Extract unnamed fields; named and unit field lists are rejected.
    pub fn extract_unnamed_fields(self) -> (r: Result<Vec<FieldDef>, Rejection<NamedFields, ()>>)
        ensures
            (match self {
                FieldsDef::Named(n) => r == Err::<Vec<FieldDef>, _>(Rejection::<NamedFields, ()>::A(
                    n,
                )),
                FieldsDef::Unnamed(u) => r matches Ok(v) && v == u.fields,
                FieldsDef::Unit => r == Err::<Vec<FieldDef>, _>(Rejection::<NamedFields, ()>::B(
                    (),
                )),
            }),
    {
        match self {
            FieldsDef::Named(fields) => Err(Rejection::A(fields)),
            FieldsDef::Unnamed(fields) => Ok(fields.fields),
            FieldsDef::Unit => Err(Rejection::B(())),
        }
    }

    /// Extract named or unnamed fields; a unit struct is rejected.
    pub fn extract_any_fields(self) -> (r: Result<Vec<FieldDef>, ParseError>)
        ensures
            (match self {
                FieldsDef::Named(n) => r matches Ok(v) && v == n.fields,
                FieldsDef::Unnamed(u) => r matches Ok(v) && v == u.fields,
                FieldsDef::Unit => r matches Err(e) && e@ == "Unit structs not supported"@,
            }),
    {
        match self.extract_named_fields() {
            Ok(fields) => Ok(fields),
            Err(Rejection::A(fields)) => Ok(fields.fields),
            Err(_) => Err(ParseError::new("Unit structs not supported")),
        }
    }
}

} // verus!
