//! Failure taxonomy surfaced to the user through the error popup.

use vstd::prelude::*;

verus! {

/// What the engine reads of a backend error: its user-facing message.
#[derive(Clone, Debug, PartialEq)]
pub struct GitError {
    pub message: String,
}

/// A failure raised by a screen operation or a background operation.  It is
/// routed to the error popup, never allowed to end the process.
#[derive(Clone, Debug, PartialEq)]
pub enum Error {
    Git(GitError),
    Io(String),
    Unknown(String),
}

impl Error {
    /// The user-facing message carried by the failure.
    pub open spec fn spec_message(&self) -> Seq<char> {
        match self {
            Error::Git(err) => err.message@,
            Error::Io(kind) => kind@,
            Error::Unknown(message) => message@,
        }
    }

    pub fn message(&self) -> (m: String)
        ensures
            m@ == self.spec_message(),
    {
        match self {
            Error::Git(err) => err.message.clone(),
            Error::Io(kind) => kind.clone(),
            Error::Unknown(message) => message.clone(),
        }
    }
}

impl From<String> for Error {
    fn from(message: String) -> (e: Self) {
        Error::Unknown(message)
    }
}

impl vstd::std_specs::convert::FromSpecImpl<String> for Error {
    open spec fn obeys_from_spec() -> bool {
        true
    }

    open spec fn from_spec(message: String) -> Self {
        Error::Unknown(message)
    }
}

} // verus!
