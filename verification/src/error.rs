//! The agent's unified failure type.
//!
//! Every fault the agent meets is folded into one of five kinds:
//! free-text internal faults (configuration, cryptography, parsing,
//! protocol envelopes), server-reported application failures, and the
//! three transport-level kinds (filesystem, SSH, archive packaging).
//! Each carries the underlying message text; rendering is always
//! `"<kind> error: <message>"`.

use vstd::prelude::*;

verus! {

#[derive(Debug, Clone, PartialEq, Eq)]
pub enum Error {
    /// Configuration, cryptographic, parsing, or protocol-envelope failure.
    Internal(String),
    /// The server reported an application-level failure.
    Api(String),
    /// A filesystem or OS fault, carried as its message text.
    Io(String),
    /// An SSH protocol or transport fault (spreader only).
    Ssh(String),
    /// An archive-packaging fault (spreader only).
    Zip(String),
}

/// What `render` must produce: the kind's label, the fixed separator,
/// then the carried message.
pub open spec fn spec_render(e: Error) -> Seq<char> {
    match e {
        Error::Internal(m) => "Internal error: "@ + m@,
        Error::Api(m) => "API error: "@ + m@,
        Error::Io(m) => "IO error: "@ + m@,
        Error::Ssh(m) => "SSH error: "@ + m@,
        Error::Zip(m) => "Zip error: "@ + m@,
    }
}

impl Error {
    /// The human-readable form printed on fatal startup failures.
    pub fn render(&self) -> (r: String)
        ensures
            r@ == spec_render(*self),
    {
        match self {
            Error::Internal(m) => String::from_str("Internal error: ").concat(m.as_str()),
            Error::Api(m) => String::from_str("API error: ").concat(m.as_str()),
            Error::Io(m) => String::from_str("IO error: ").concat(m.as_str()),
            Error::Ssh(m) => String::from_str("SSH error: ").concat(m.as_str()),
            Error::Zip(m) => String::from_str("Zip error: ").concat(m.as_str()),
        }
    }

    /// The carried message text alone.
    pub fn message(&self) -> (r: String)
        ensures
            r@ == match *self {
                Error::Internal(m) => m@,
                Error::Api(m) => m@,
                Error::Io(m) => m@,
                Error::Ssh(m) => m@,
                Error::Zip(m) => m@,
            },
    {
        match self {
            Error::Internal(m) => m.clone(),
            Error::Api(m) => m.clone(),
            Error::Io(m) => m.clone(),
            Error::Ssh(m) => m.clone(),
            Error::Zip(m) => m.clone(),
        }
    }
}

} // verus!
