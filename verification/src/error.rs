//! Errors that `dwprod` can encounter.

use vstd::prelude::*;

verus! {

/// Errors that `dwprod` can encounter.
#[derive(Debug)]
pub enum Error {
    /// Some other error, described by a message.
    Msg(String),
    /// A DWARF parsing error.
    Dwarf(gimli::Error),
}

impl Error {
    /// A human-readable description of the error: the message itself for
    /// `Msg`, and gimli's display text for `Dwarf`.
    pub fn message(&self) -> (r: String)
        ensures
            self matches Error::Msg(m) ==> r@ == m@,
            self matches Error::Dwarf(e) ==> r@ == crate::dwarf::gimli_error_text(*e),
    {
        match self {
            Error::Msg(m) => m.clone(),
            Error::Dwarf(e) => crate::dwarf::gimli_error_message(e),
        }
    }
}

impl From<String> for Error {
    fn from(s: String) -> (r: Error) {
        Error::Msg(s)
    }
}

impl vstd::std_specs::convert::FromSpecImpl<String> for Error {
    open spec fn obeys_from_spec() -> bool {
        true
    }

    open spec fn from_spec(s: String) -> Error {
        Error::Msg(s)
    }
}

impl From<&str> for Error {
    fn from(s: &str) -> (r: Error)
        ensures
            r matches Error::Msg(m) && m@ == s@,
    {
        Error::Msg(s.to_owned())
    }
}

/// The spec-level `String` for the message cannot be written down in a spec
/// expression, so `from_spec` is left unconstrained and `obeys_from_spec`
/// says so; the impl above carries the real contract instead.
impl vstd::std_specs::convert::FromSpecImpl<&str> for Error {
    open spec fn obeys_from_spec() -> bool {
        false
    }

    open spec fn from_spec(s: &str) -> Error {
        vstd::pervasive::arbitrary()
    }
}

impl From<gimli::Error> for Error {
    fn from(e: gimli::Error) -> (r: Error) {
        Error::Dwarf(e)
    }
}

impl vstd::std_specs::convert::FromSpecImpl<gimli::Error> for Error {
    open spec fn obeys_from_spec() -> bool {
        true
    }

    open spec fn from_spec(e: gimli::Error) -> Error {
        Error::Dwarf(e)
    }
}

} // verus!
