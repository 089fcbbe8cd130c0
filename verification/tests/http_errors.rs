use http::StatusCode;
use passivized_test_support::http_errors::HttpError;

#[test]
fn from_utf8_error_becomes_its_variant() {
    let cause = String::from_utf8(vec![0xff]).unwrap_err();

    let actual = HttpError::from(cause.clone());

    assert!(matches!(actual, HttpError::FromUtf8(inner) if inner == cause));
}

#[test]
fn from_http_error_becomes_its_variant() {
    let cause: http::Error = StatusCode::from_u16(1).unwrap_err().into();

    let actual: HttpError = cause.into();

    assert!(matches!(actual, HttpError::Http(_)));
}

#[test]
fn every_variant_can_be_told_apart() {
    let other = HttpError::Other(String::from("connection refused"));
    let status = HttpError::Status(StatusCode::IM_A_TEAPOT);

    assert!(matches!(other, HttpError::Other(text) if text == "connection refused"));
    assert!(matches!(status, HttpError::Status(code) if code.as_u16() == 418));
}
