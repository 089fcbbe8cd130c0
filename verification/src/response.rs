//! The rules by which the HTTP probe turns a response into a text or a failure.

use crate::http_errors::HttpError;
use crate::http_status_tests::{status_number, StatusTest};
use http::StatusCode;
use std::string::FromUtf8Error;
use vstd::prelude::*;
use vstd::utf8::{decode_utf8, valid_utf8};

verus! {

/// `String::from_utf8` succeeds exactly on well-formed UTF-8, and then returns
/// the text that the bytes encode.
pub assume_specification[ String::from_utf8 ](bytes: Vec<u8>) -> (decoded: Result<
    String,
    FromUtf8Error,
>)
    ensures
        decoded is Ok <==> valid_utf8(bytes@),
        decoded matches Ok(text) ==> text@ == decode_utf8(bytes@),
;

/// What the probe makes of a response whose status code has the number
/// `number` and whose body is `body`: the text of the body where the test
/// passes and the body is UTF-8, and no text otherwise.
pub open spec fn response_text<T: StatusTest>(status_test: &T, number: u16, body: Seq<u8>) -> Option<
    Seq<char>,
> {
    if status_test.accepts(number) && valid_utf8(body) {
        Some(decode_utf8(body))
    } else {
        None
    }
}

/// Holds the status code of a response against the test, before the body is
/// read: a code that the test turns down is the failure `Status`.
pub fn check_status<T: StatusTest>(status: StatusCode, status_test: &T) -> (checked: Result<
    (),
    HttpError,
>)
    ensures
        status_test.accepts(status_number(status)) ==> checked is Ok,
        !status_test.accepts(status_number(status)) ==> checked == Err::<(), HttpError>(
            HttpError::Status(status),
        ),
{
    if status_test.test(status) {
        Ok(())
    } else {
        Err(HttpError::Status(status))
    }
}

/// Decodes the body of a response: its text where the bytes are UTF-8, the
/// failure `FromUtf8` where they are not.
pub fn body_text(body: Vec<u8>) -> (text: Result<String, HttpError>)
    ensures
        valid_utf8(body@) ==> (text matches Ok(decoded) && decoded@ == decode_utf8(body@)),
        !valid_utf8(body@) ==> text matches Err(HttpError::FromUtf8(_)),
{
    match String::from_utf8(body) {
        Ok(decoded) => Ok(decoded),
        Err(error) => Err(HttpError::from(error)),
    }
}

/// The result of one attempt of the probe, from the response it got: the test
/// on the status code comes first, and only a response that passes it has its
/// body decoded.
pub fn parse_response<T: StatusTest>(status: StatusCode, body: Vec<u8>, status_test: &T) -> (text:
    Result<String, HttpError>)
    ensures
        text is Ok <==> response_text(status_test, status_number(status), body@) is Some,
        text matches Ok(decoded) ==> Some(decoded@) == response_text(
            status_test,
            status_number(status),
            body@,
        ),
        !status_test.accepts(status_number(status)) ==> text == Err::<String, HttpError>(
            HttpError::Status(status),
        ),
        status_test.accepts(status_number(status)) && !valid_utf8(body@) ==> text matches Err(
            HttpError::FromUtf8(_),
        ),
{
    match check_status(status, status_test) {
        Ok(()) => body_text(body),
        Err(error) => Err(error),
    }
}

} // verus!
