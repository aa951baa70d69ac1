use vstd::prelude::*;

use crate::errors::ParseError;
use crate::tokens::TokenNode;

verus! {

/// Identifier construction shorthand.
pub trait MacroificCoreIdentExt: Sized {
    /// `self` is the identifier token spelled `name`.
    spec fn is_created_ident(self, name: Seq<char>) -> bool;

    /// Create an identifier token spelled `name`.
    fn create(name: &str) -> (r: Self)
        ensures
            r.is_created_ident(name@),
    ;
}

impl MacroificCoreIdentExt for TokenNode {
    open spec fn is_created_ident(self, name: Seq<char>) -> bool {
        crate::tokens::is_ident_text(self, name)
    }

    fn create(name: &str) -> (r: Self) {
        TokenNode::Ident { text: name.to_owned() }
    }
}

/// Punctuation construction shorthand.
pub trait MacroificCorePunctExt: Sized {
    /// `self` is the punctuation token `ch`, spaced as `joint` says.
    spec fn is_created_punct(self, ch: char, joint: bool) -> bool;

    /// Create a punctuation token spaced alone.
    fn new_alone(ch: char) -> (r: Self)
        ensures
            r.is_created_punct(ch, false),
    ;

    /// Create a punctuation token spaced jointly with what follows.
    fn new_joint(ch: char) -> (r: Self)
        ensures
            r.is_created_punct(ch, true),
    ;
}

impl MacroificCorePunctExt for TokenNode {
    open spec fn is_created_punct(self, ch: char, joint: bool) -> bool {
        self == (TokenNode::Punct { ch, joint })
    }

    fn new_alone(ch: char) -> (r: Self) {
        TokenNode::Punct { ch, joint: false }
    }

    fn new_joint(ch: char) -> (r: Self) {
        TokenNode::Punct { ch, joint: true }
    }
}

/// Diagnostic construction shorthand.
pub trait MacroificCoreErrorExt: Sized + View<V = Seq<char>> {
    /// Build a diagnostic carrying `msg`, attached to the calling site.
    fn call_site(msg: &str) -> (r: Self)
        ensures
            r@ == msg@,
    ;
}

impl MacroificCoreErrorExt for ParseError {
    fn call_site(msg: &str) -> (r: Self) {
        ParseError::new(msg)
    }
}

} // verus!
