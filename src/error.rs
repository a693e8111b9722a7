use vstd::prelude::*;

verus! {

/// The ways a call to the service can fail.
#[derive(Debug, PartialEq, Eq)]
pub enum SdkError {
    /// The API key cannot stand in an HTTP header value.
    Config,
    /// The request could not be sent or the server answered with an error.
    Transport(String),
    /// The reply lacks the named field, or it has another shape.
    Decode(String),
}

} // verus!
