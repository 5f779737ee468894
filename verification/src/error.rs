//! The error that the stores and the parsers of identifiers and dates return.

use vstd::prelude::*;
use vstd::string::StringExecFns;

verus! {

/// Why an operation was refused.
#[derive(Debug, PartialEq, Eq)]
pub enum Error {
    /// An identifier or a date that could not be read; holds the reason.
    Validation(String),
    /// A snapshot that could not be read or written; holds the reason.
    Persistence(String),
    /// Anything else.
    Other(String),
}

impl Error {
    /// The reason that the error carries.
    pub open spec fn reason(&self) -> Seq<char> {
        match self {
            Error::Validation(m) => m@,
            Error::Persistence(m) => m@,
            Error::Other(m) => m@,
        }
    }

    /// The reason that the error carries.
    pub fn message(&self) -> (text: &String)
        ensures
            text@ == self.reason(),
    {
        match self {
            Error::Validation(m) => m,
            Error::Persistence(m) => m,
            Error::Other(m) => m,
        }
    }

    /// The line shown to a user: `Error: ` and the reason.
    pub fn to_string(&self) -> (line: String)
        ensures
            line@ == "Error: "@ + self.reason(),
    {
        String::from_str("Error: ").concat(self.message().as_str())
    }
}

} // verus!
