//! The ways in which a request fails.

use vstd::prelude::*;
use vstd::string::*;

verus! {

/// A failure that ends a request before it is answered.
#[derive(Clone, Copy, Debug, PartialEq, Eq, Structural)]
pub enum RequestError {
    /// The action envelope could not be decoded.
    Decode,
    /// The endpoints of an edge are of types that cannot be linked.
    IncompatibleTypes,
    /// Only a part of a submission of several records was stored.
    PartialWrite,
    /// The store reported that a submission failed.
    WriteFailed,
    /// The body of the response could not be encoded.
    Encode,
}

/// The plain-text message of a failure.
pub open spec fn message_of(error: RequestError) -> Seq<char> {
    match error {
        RequestError::Decode => "Action could not be decoded"@,
        RequestError::IncompatibleTypes => "PK types not comatible with edge"@,
        RequestError::PartialWrite => "Records were only partially written"@,
        RequestError::WriteFailed => "Records could not be written"@,
        RequestError::Encode => "Could not handle input"@,
    }
}

impl RequestError {
    /// The plain-text message of the failure.
    pub fn message(&self) -> (text: String)
        ensures
            text@ == message_of(*self),
    {
        match self {
            RequestError::Decode => String::from_str("Action could not be decoded"),
            RequestError::IncompatibleTypes => String::from_str("PK types not comatible with edge"),
            RequestError::PartialWrite => String::from_str("Records were only partially written"),
            RequestError::WriteFailed => String::from_str("Records could not be written"),
            RequestError::Encode => String::from_str("Could not handle input"),
        }
    }
}

} // verus!
