//! What can go wrong when a text response is fetched over HTTP.

use http::StatusCode;
use std::string::FromUtf8Error;
use vstd::prelude::*;
use vstd::std_specs::convert::FromSpecImpl;

verus! {

#[verifier::external_type_specification]
#[verifier::external_body]
pub struct ExFromUtf8Error(FromUtf8Error);

#[verifier::external_type_specification]
#[verifier::external_body]
pub struct ExHttpError(http::Error);

/// The failure of one attempt to fetch a text response.
#[derive(Debug)]
pub enum HttpError {
    /// The body of the response is not UTF-8.
    FromUtf8(FromUtf8Error),
    /// The request could not be built.
    Http(http::Error),
    /// The transport failed; the text says how.
    Other(String),
    /// The server answered with a status code that the test turned down.
    Status(StatusCode),
}

impl From<FromUtf8Error> for HttpError {
    fn from(other: FromUtf8Error) -> (error: Self) {
        Self::FromUtf8(other)
    }
}

impl FromSpecImpl<FromUtf8Error> for HttpError {
    open spec fn obeys_from_spec() -> bool {
        true
    }

    open spec fn from_spec(other: FromUtf8Error) -> Self {
        HttpError::FromUtf8(other)
    }
}

impl From<http::Error> for HttpError {
    fn from(other: http::Error) -> (error: Self) {
        Self::Http(other)
    }
}

impl FromSpecImpl<http::Error> for HttpError {
    open spec fn obeys_from_spec() -> bool {
        true
    }

    open spec fn from_spec(other: http::Error) -> Self {
        HttpError::Http(other)
    }
}

} // verus!
