//! Predicates over the status code of an HTTP response.

use http::StatusCode;
use vstd::prelude::*;

verus! {

#[verifier::external_type_specification]
#[verifier::external_body]
pub struct ExStatusCode(StatusCode);

/// The number of a status code, as `StatusCode::as_u16` returns it.
pub uninterp spec fn status_number(status: StatusCode) -> u16;

/// `StatusCode::as_u16` returns the number that the status code holds.
pub assume_specification[ StatusCode::as_u16 ](status: &StatusCode) -> (number: u16)
    ensures
        number == status_number(*status),
;

/// `StatusCode::is_success` tells whether the number lies in 200..=299.
#[verifier::external_body]
fn in_success_range(status: &StatusCode) -> (success: bool)
    ensures
        success == (200 <= status_number(*status) <= 299),
{
    status.is_success()
}

/// A test that passes on one status code only.
pub fn equals(status: StatusCode) -> (test: Equals)
    ensures
        test.expected() == status_number(status),
{
    Equals::new(status)
}

/// A test that passes on the success codes, 200 to 299.
pub fn is_success() -> (test: Success)
    ensures
        forall|number: u16| test.accepts(number) <==> 200 <= number <= 299,
{
    Success {  }
}

/// A pure test on the status code of a response.
pub trait StatusTest {
    /// Whether the test passes on the status code with this number.
    spec fn accepts(&self, number: u16) -> bool;

    /// Tells whether `status` passes.
    fn test(&self, status: StatusCode) -> (passed: bool)
        ensures
            passed == self.accepts(status_number(status)),
    ;
}

/// Passes on exactly the expected status code.
#[derive(Copy, Clone)]
pub struct Equals {
    expected: StatusCode,
}

impl Equals {
    /// The number of the one status code that passes.
    pub closed spec fn expected(&self) -> u16 {
        status_number(self.expected)
    }

    fn new(expected: StatusCode) -> (test: Self)
        ensures
            test.expected() == status_number(expected),
    {
        Self { expected }
    }
}

impl StatusTest for Equals {
    open spec fn accepts(&self, number: u16) -> bool {
        number == self.expected()
    }

    fn test(&self, status: StatusCode) -> (passed: bool) {
        status.as_u16() == self.expected.as_u16()
    }
}

/// Passes on every success code.
#[derive(Copy, Clone)]
pub struct Success {}

impl StatusTest for Success {
    open spec fn accepts(&self, number: u16) -> bool {
        200 <= number <= 299
    }

    fn test(&self, status: StatusCode) -> (passed: bool) {
        in_success_range(&status)
    }
}

} // verus!
