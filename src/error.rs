//! The error taxonomy of the store client.
use vstd::prelude::*;
use vstd::string::*;

verus! {

/// Errors that can occur when talking to the store.
#[derive(Debug, Clone, Copy, PartialEq, Eq, Structural)]
pub enum Error {
    /// The store's base address was not configured.
    URINotSet,
    /// A credential could not be obtained or renewed, or a request could not be sent.
    Authentication,
    /// A read came back with a status other than success.
    NotFound,
    /// A create or replace came back with a status other than success.
    PostData,
    /// A delete came back with a status other than success.
    DeleteData,
}

impl Error {
    /// The human-readable text of each error.
    pub open spec fn text(self) -> Seq<char> {
        match self {
            Error::URINotSet => "FIREBASE_URI not set"@,
            Error::Authentication => "Authentication error"@,
            Error::NotFound => "Not found"@,
            Error::PostData => "Error posting data"@,
            Error::DeleteData => "Error deleting data"@,
        }
    }

    /// The human-readable text of this error.
    pub fn message(&self) -> (r: String)
        ensures
            r@ == self.text(),
    {
        match self {
            Error::URINotSet => String::from_str("FIREBASE_URI not set"),
            Error::Authentication => String::from_str("Authentication error"),
            Error::NotFound => String::from_str("Not found"),
            Error::PostData => String::from_str("Error posting data"),
            Error::DeleteData => String::from_str("Error deleting data"),
        }
    }
}

} // verus!
