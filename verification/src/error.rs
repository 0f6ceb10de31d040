//! The error value returned by every fallible operation of the crate.

use vstd::prelude::*;

verus! {

/// Why an operation of this crate failed.
///
/// `InvalidType` reports a conversion requested against a value of the wrong
/// variant, `Decode` a wire shape or value that violates the JSON-RPC 2.0
/// rules, and `Serde` a failure of the underlying JSON text layer.
#[derive(Debug)]
pub enum Error {
    InvalidType(String),
    Decode(String),
    Serde(String),
}

impl Error {
    /// The human-readable description carried by this error.
    pub fn message(&self) -> (r: &String)
        ensures
            r@ == self.message_view(),
    {
        match self {
            Error::InvalidType(m) => m,
            Error::Decode(m) => m,
            Error::Serde(m) => m,
        }
    }

    /// The description of this error, as a sequence of characters.
    pub open spec fn message_view(self) -> Seq<char> {
        match self {
            Error::InvalidType(m) => m@,
            Error::Decode(m) => m@,
            Error::Serde(m) => m@,
        }
    }
}

} // verus!
