//! The closed set of failure kinds consumed by every other component.
//!
//! Every fallible operation returns one of these typed errors to its caller;
//! nothing is swallowed inside the library.  All of them are terminal for the
//! call that produced them: retry policy is a caller concern.

use crate::json::JsonValue;
use vstd::prelude::*;

verus! {

pub type AnkiResult<T> = Result<T, AnkiError>;

/// Failures raised while staging an entity or a media item.
#[derive(Debug)]
pub enum BuilderErrors {
    /// None of data, url, or path was supplied for the media item with this
    /// filename, so its byte payload cannot be resolved.
    MissingMedia(String),
    /// A required staged field (named here) was absent or empty.
    UninitializedField(String),
}

/// A decoding failure that keeps enough context to debug protocol drift
/// without reproducing the call: the name of the expected shape, the raw
/// value that was received, and the underlying diagnostic.
#[derive(Debug)]
pub struct CustomSerdeError {
    exp: String,
    recv: JsonValue,
    help: String,
}

impl CustomSerdeError {
    /// The name of the shape the decoder expected.
    pub closed spec fn spec_exp(&self) -> Seq<char> {
        self.exp@
    }

    /// The raw value that was received.
    pub closed spec fn spec_recv(&self) -> JsonValue {
        self.recv
    }

    /// The underlying decode diagnostic.
    pub closed spec fn spec_help(&self) -> Seq<char> {
        self.help@
    }

    /// Builds a decoding error; absent parts are recorded as unspecified.
    pub fn expected(expected: Option<String>, received: JsonValue, help: Option<String>) -> (r:
        CustomSerdeError)
        ensures
            r.spec_exp() == match expected {
                Some(e) => e@,
                None => "<unspecified>"@,
            },
            r.spec_recv() == received,
            r.spec_help() == match help {
                Some(h) => h@,
                None => "<unspecified>"@,
            },
    {
        let exp = match expected {
            Some(e) => e,
            None => "<unspecified>".to_owned(),
        };
        let help = match help {
            Some(h) => h,
            None => "<unspecified>".to_owned(),
        };
        CustomSerdeError { exp, recv: received, help }
    }

    /// The name of the shape the decoder expected.
    pub fn expected_shape(&self) -> (r: &String)
        ensures
            r@ == self.spec_exp(),
    {
        &self.exp
    }

    /// The raw value that was received.
    pub fn received(&self) -> (r: &JsonValue)
        ensures
            *r == self.spec_recv(),
    {
        &self.recv
    }

    /// The underlying decode diagnostic.
    pub fn diagnostic(&self) -> (r: &String)
        ensures
            r@ == self.spec_help(),
    {
        &self.help
    }
}

/// The error taxonomy of the client.
#[derive(Debug)]
pub enum AnkiError {
    /// The service returned a non-null error string; it is surfaced verbatim
    /// and never reinterpreted.
    AnkiConnect(String),
    /// A structurally valid result set was empty where emptiness is invalid
    /// for that call.
    NoDataFound,
    /// A transport-level failure (connection refused, timeout, DNS).
    RequestError(String),
    /// An identifier could not be normalized from its textual form.
    ParseIntError(String),
    /// No service was reachable at the given endpoint.
    ConnectionNotFound(String),
    /// The response did not match the expected result shape.
    CustomSerde(CustomSerdeError),
    /// A local file access failure.
    Io(String),
    /// A staged entity or media item failed validation.
    Builder(BuilderErrors),
}

} // verus!
