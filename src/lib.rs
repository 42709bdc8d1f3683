//! A client for an event-analytics ingestion service: events built field by
//! field, the upload envelope that carries them, and the decoding of the
//! service's answer by its HTTP status code.
use vstd::prelude::*;

pub mod amp;
pub mod entities;
pub mod json;
pub mod response;

pub use amp::Amp;
pub use entities::Event;

verus! {

/// What can go wrong between building an event and reading the answer.
#[derive(Debug)]
pub enum AmplitudeError {
    /// No credential was found when the client was made.
    InitializationError(String),
    /// An event names neither a user nor a device.
    ValidationError(String),
    /// A field of an event's JSON form holds a value of the wrong kind; the
    /// field's name.
    InvalidField(String),
    /// The HTTP transport could not be set up.
    TransportError(reqwest::Error),
    /// The upload could not be sent or its answer not received.
    NetworkError(reqwest::Error),
    /// The answer's body is not JSON; the parse error and the body.
    SerdeError(serde_json::Error, String),
    /// The answer's body is JSON of another shape than its status calls for;
    /// the body.
    DecodingError(String),
    /// Something that no other variant covers.
    UnknownError,
}

impl From<reqwest::Error> for AmplitudeError {
    fn from(e: reqwest::Error) -> AmplitudeError {
        AmplitudeError::NetworkError(e)
    }
}

impl vstd::std_specs::convert::FromSpecImpl<reqwest::Error> for AmplitudeError {
    open spec fn obeys_from_spec() -> bool {
        true
    }

    open spec fn from_spec(e: reqwest::Error) -> AmplitudeError {
        AmplitudeError::NetworkError(e)
    }
}

} // verus!
