use vstd::prelude::*;

verus! {

/// A parse diagnostic: the message that the option grammar reports for a
/// rejected input.
#[derive(Debug, PartialEq, Eq)]
pub struct ParseError {
    message: String,
}

impl View for ParseError {
    type V = Seq<char>;

    closed spec fn view(&self) -> Seq<char> {
        self.message@
    }
}

impl ParseError {
    /// Build an error carrying the given message.
    pub fn new(message: &str) -> (r: Self)
        ensures
            r@ == message@,
    {
        ParseError { message: message.to_owned() }
    }

    /// Build an error from an owned message.
    pub fn from_string(message: String) -> (r: Self)
        ensures
            r@ == message@,
    {
        ParseError { message }
    }

    /// The message carried by this error.
    pub fn message(&self) -> (r: &str)
        ensures
            r@ == self@,
    {
        self.message.as_str()
    }
}

} // verus!
