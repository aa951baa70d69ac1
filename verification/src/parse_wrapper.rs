use vstd::prelude::*;

use crate::errors::ParseError;
use crate::parse_option::ParseOption;
use crate::tokens::TokenNode;

verus! {

/// A wrapper that gives any [`ParseOption`] a plain whole-stream parse.
pub struct ParseWrapper<T>(T);

impl<T> ParseWrapper<T> {
    /// The wrapped value.
    pub closed spec fn spec_inner(self) -> T {
        self.0
    }

    /// Wrap a value.
    pub fn new(inner: T) -> (r: Self)
        ensures
            r.spec_inner() == inner,
    {
        ParseWrapper(inner)
    }

    /// Get the inner value.
    pub fn inner(self) -> (r: T)
        ensures
            r == self.spec_inner(),
    {
        self.0
    }

    /// Decode the wrapped type from a whole option value stream and unwrap
    /// it again.
    pub fn parse_self(tokens: Vec<TokenNode>) -> (r: Result<T, ParseError>) where T: ParseOption
        ensures
            r is Ok <==> T::stream_ok(tokens@),
            (match r {
                Ok(v) => T::stream_value(tokens@, v),
                Err(e) => e@ == T::stream_err(tokens@),
            }),
    {
        match T::from_stream(tokens) {
            Ok(v) => Ok(Self::new(v).inner()),
            Err(e) => Err(e),
        }
    }

    /// [`parse_self`](ParseWrapper::parse_self) under its whole-stream
    /// name: the model stream is already a token sequence.
    pub fn parse_stream_self(tokens: Vec<TokenNode>) -> (r: Result<T, ParseError>) where
        T: ParseOption

        ensures
            r is Ok <==> T::stream_ok(tokens@),
            (match r {
                Ok(v) => T::stream_value(tokens@, v),
                Err(e) => e@ == T::stream_err(tokens@),
            }),
    {
        Self::parse_self(tokens)
    }
}

} // verus!
