//! The one failure that parsing a time log reports.

use vstd::prelude::*;

verus! {

/// Why a log could not be parsed, as a message for the reader.
#[derive(Debug)]
pub struct ParseError {
    msg: String,
}

impl View for ParseError {
    type V = Seq<char>;

    closed spec fn view(&self) -> Seq<char> {
        self.msg@
    }
}

impl ParseError {
    pub fn new(msg: &str) -> (r: Self)
        ensures
            r@ == msg@,
    {
        Self { msg: msg.to_owned() }
    }

    /// The message, as text.
    pub fn message(&self) -> (r: String)
        ensures
            r@ == self@,
    {
        self.msg.clone()
    }
}

} // verus!
