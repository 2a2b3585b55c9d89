//! The error type shared by every fallible operation of this crate: a plain
//! human-readable message.

use vstd::prelude::*;

verus! {

/// An error carrying nothing but a message for the log.
#[derive(Debug)]
pub struct SimpleError(pub String);

impl SimpleError {
    /// The message the error carries.
    pub fn message(&self) -> (r: &String)
        ensures
            r@ == self.0@,
    {
        &self.0
    }
}

impl From<String> for SimpleError {
    fn from(s: String) -> (r: SimpleError) {
        SimpleError(s)
    }
}

impl vstd::std_specs::convert::FromSpecImpl<String> for SimpleError {
    open spec fn obeys_from_spec() -> bool {
        true
    }

    open spec fn from_spec(s: String) -> SimpleError {
        SimpleError(s)
    }
}

/// Boxes a message as an error.
pub fn err(s: String) -> (r: Box<SimpleError>)
    ensures
        r.0@ == s@,
{
    Box::new(SimpleError(s))
}

} // verus!
