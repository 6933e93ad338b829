//! End-to-end tests through a real `http::HeaderMap`: header retrieval,
//! failure classification, the challenge quirk, custom status codes, and
//! the purity of repeated decoding.

use axum_auth::{decode_basic, decode_basic_custom, decode_bearer, decode_bearer_custom};
use http::header::AUTHORIZATION;
use http::{HeaderMap, HeaderValue};

fn headers_with(value: HeaderValue) -> HeaderMap {
    let mut headers = HeaderMap::new();
    headers.insert(AUTHORIZATION, value);
    headers
}

#[test]
fn missing_header_is_rejected_with_challenge() {
    let headers = HeaderMap::new();
    let rej = decode_basic(&headers).unwrap_err();
    assert_eq!(rej.status, 401);
    assert_eq!(rej.body, "`Authorization` header is missing");
    assert_eq!(rej.challenge.as_deref(), Some("Basic"));
}

#[test]
fn missing_header_bearer_also_gets_basic_challenge() {
    // The challenge names the Basic scheme even on the Bearer path: a
    // documented quirk, kept as it stands.
    let headers = HeaderMap::new();
    let rej = decode_bearer(&headers).unwrap_err();
    assert_eq!(rej.status, 401);
    assert_eq!(rej.body, "`Authorization` header is missing");
    assert_eq!(rej.challenge.as_deref(), Some("Basic"));
}

#[test]
fn missing_header_custom_status() {
    let headers = HeaderMap::new();
    let rej = decode_basic_custom(&headers, 403).unwrap_err();
    assert_eq!(rej.status, 403);
    assert_eq!(rej.body, "`Authorization` header is missing");
    assert_eq!(rej.challenge.as_deref(), Some("Basic"));

    let rej = decode_bearer_custom(&headers, 403).unwrap_err();
    assert_eq!(rej.status, 403);
}

#[test]
fn invalid_utf8_header_is_rejected_without_challenge() {
    let value = HeaderValue::from_bytes(&[0x42, 0xc3, 0x28]).unwrap();
    let rej = decode_basic_custom(&headers_with(value), 401).unwrap_err();
    assert_eq!(rej.status, 401);
    assert_eq!(rej.body, "`Authorization` header contains invalid characters");
    assert_eq!(rej.challenge, None);

    let value = HeaderValue::from_bytes(&[0x42, 0xc3, 0x28]).unwrap();
    let rej = decode_bearer_custom(&headers_with(value), 401).unwrap_err();
    assert_eq!(rej.body, "`Authorization` header contains invalid characters");
    assert_eq!(rej.challenge, None);
}

#[test]
fn basic_through_header_map() {
    let headers = headers_with(HeaderValue::from_static("Basic QWxhZGRpbjpvcGVuIHNlc2FtZQ=="));
    let creds = decode_basic(&headers).unwrap();
    assert_eq!(creds.user_id, "Aladdin");
    assert_eq!(creds.password.as_deref(), Some("open sesame"));
}

#[test]
fn bearer_through_header_map() {
    let headers = headers_with(HeaderValue::from_static("Bearer sometoken"));
    let token = decode_bearer(&headers).unwrap();
    assert_eq!(token, "sometoken");
}

#[test]
fn header_name_lookup_is_case_insensitive() {
    let mut headers = HeaderMap::new();
    headers.insert("authorization", HeaderValue::from_static("Bearer t"));
    let token = decode_bearer(&headers).unwrap();
    assert_eq!(token, "t");
}

#[test]
fn repeated_decoding_is_identical() {
    let headers = headers_with(HeaderValue::from_static("Basic QWxhZGRpbjpvcGVuIHNlc2FtZQ=="));
    let first = decode_basic(&headers);
    let second = decode_basic(&headers);
    assert_eq!(first, second);

    let headers = headers_with(HeaderValue::from_static("Bearer sometoken"));
    let first = decode_bearer(&headers);
    let second = decode_bearer(&headers);
    assert_eq!(first, second);

    let headers = HeaderMap::new();
    let first = decode_basic(&headers);
    let second = decode_basic(&headers);
    assert_eq!(first, second);
}

#[test]
fn wrong_scheme_through_header_map() {
    let headers = headers_with(HeaderValue::from_static("Bearer xyz"));
    let rej = decode_basic(&headers).unwrap_err();
    assert_eq!(rej.body, "`Authorization` header must be for basic authentication");

    let headers = headers_with(HeaderValue::from_static("Basic xyz="));
    let rej = decode_bearer(&headers).unwrap_err();
    assert_eq!(rej.body, "`Authorization` header must be a bearer token");
}
