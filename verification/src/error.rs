//! The errors of the library.
use vstd::prelude::*;

verus! {

#[verifier::external_type_specification]
#[verifier::external_body]
pub struct ExIoError(std::io::Error);

/// What can go wrong reading the machine's state.
#[derive(Debug)]
pub enum Error {
    /// Reading or writing a file failed.
    IO(std::io::Error),
    /// The data read had an unexpected form.
    Unknown,
    DivisionByZero,
    /// The hardware (a battery, an AC adapter) is not there.
    HdwNotFound,
}

impl From<std::io::Error> for Error {
    fn from(e: std::io::Error) -> (r: Error)
        ensures
            r == Error::IO(e),
    {
        Error::IO(e)
    }
}

impl vstd::std_specs::convert::FromSpecImpl<std::io::Error> for Error {
    open spec fn obeys_from_spec() -> bool {
        true
    }

    open spec fn from_spec(e: std::io::Error) -> Error {
        Error::IO(e)
    }
}

} // verus!
