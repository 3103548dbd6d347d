//! The closed failure taxonomy shared by every operation against the camera.

use reqwest::Error as ReqwestFailure;
use serde_json::Error as SerdeJsonFailure;
use std::string::FromUtf8Error;
use vstd::prelude::*;

verus! {

/// Relies on `reqwest::Error` only as an opaque payload: the transport error
/// of the HTTP client, carried through unread.
#[verifier::external_type_specification]
#[verifier::external_body]
pub struct ExReqwestFailure(ReqwestFailure);

/// Relies on `serde_json::Error` only as an opaque payload: the parse error
/// of the JSON decoder, carried through unread.
#[verifier::external_type_specification]
#[verifier::external_body]
pub struct ExSerdeJsonFailure(SerdeJsonFailure);

/// Relies on `std::string::FromUtf8Error` only as an opaque payload: the
/// error of `String::from_utf8`, carried through unread.
#[verifier::external_type_specification]
#[verifier::external_body]
pub struct ExFromUtf8Failure(FromUtf8Error);

/// Every way an operation against the camera can fail.  The device conflates
/// transport-level and application-level reporting, so an HTTP failure and a
/// device-reported logical failure both end up in `StatusCode`.
#[derive(Debug)]
pub enum Error {
    /// Connection, timeout or another transport-level failure.
    HTTP(reqwest::Error),
    /// HTTP non-success, or a device-reported logical failure
    /// (`errCode != 200`); carries the status text or the device's message.
    StatusCode(String),
    /// The body was not valid JSON where a JSON envelope was expected.
    JSON(serde_json::Error),
    /// The body bytes were not valid text where text was expected.
    Utf8(std::string::FromUtf8Error),
    /// A JSON envelope or capture-status record was structurally malformed.
    MessageError,
    /// The capture did not become available within the retry budget.
    NotCaptured,
}

/// The shape of an `Error`, with the opaque payloads abstracted away to what
/// contracts can speak of.
pub ghost enum ErrorV {
    Http,
    Status(Seq<char>),
    Json,
    Utf8,
    Message,
    NotCaptured,
}

impl View for Error {
    type V = ErrorV;

    open spec fn view(&self) -> ErrorV {
        match self {
            Error::HTTP(_) => ErrorV::Http,
            Error::StatusCode(m) => ErrorV::Status(m@),
            Error::JSON(_) => ErrorV::Json,
            Error::Utf8(_) => ErrorV::Utf8,
            Error::MessageError => ErrorV::Message,
            Error::NotCaptured => ErrorV::NotCaptured,
        }
    }
}

impl From<reqwest::Error> for Error {
    fn from(e: reqwest::Error) -> (r: Error)
        ensures
            r == Error::HTTP(e),
    {
        Error::HTTP(e)
    }
}

impl vstd::std_specs::convert::FromSpecImpl<reqwest::Error> for Error {
    open spec fn obeys_from_spec() -> bool {
        true
    }

    open spec fn from_spec(e: reqwest::Error) -> Error {
        Error::HTTP(e)
    }
}

impl From<serde_json::Error> for Error {
    fn from(e: serde_json::Error) -> (r: Error)
        ensures
            r == Error::JSON(e),
    {
        Error::JSON(e)
    }
}

impl vstd::std_specs::convert::FromSpecImpl<serde_json::Error> for Error {
    open spec fn obeys_from_spec() -> bool {
        true
    }

    open spec fn from_spec(e: serde_json::Error) -> Error {
        Error::JSON(e)
    }
}

impl From<std::string::FromUtf8Error> for Error {
    fn from(e: std::string::FromUtf8Error) -> (r: Error)
        ensures
            r == Error::Utf8(e),
    {
        Error::Utf8(e)
    }
}

impl vstd::std_specs::convert::FromSpecImpl<std::string::FromUtf8Error> for Error {
    open spec fn obeys_from_spec() -> bool {
        true
    }

    open spec fn from_spec(e: std::string::FromUtf8Error) -> Error {
        Error::Utf8(e)
    }
}

} // verus!
