//! Tests of the header-text decoders: scheme checks, base64 handling,
//! credential splitting, and the exact rejection texts.

use axum_auth::basic::decode_basic_str;
use axum_auth::bearer::decode_bearer_str;
use axum_auth::reject::rejection_from_old;
use base64::engine::general_purpose::STANDARD;
use base64::Engine;

#[test]
fn basic_user_and_password() {
    let header = format!("{}{}", "Basic ", STANDARD.encode("Aladdin:open sesame"));
    assert_eq!(header, "Basic QWxhZGRpbjpvcGVuIHNlc2FtZQ==");
    let creds = decode_basic_str(&header, 401).unwrap();
    assert_eq!(creds.user_id, "Aladdin");
    assert_eq!(creds.password.as_deref(), Some("open sesame"));
}

#[test]
fn basic_no_colon_gives_no_password() {
    let header = format!("{}{}", "Basic ", STANDARD.encode("user"));
    let creds = decode_basic_str(&header, 401).unwrap();
    assert_eq!(creds.user_id, "user");
    assert_eq!(creds.password, None);
}

#[test]
fn basic_empty_payload() {
    let creds = decode_basic_str("Basic ", 401).unwrap();
    assert_eq!(creds.user_id, "");
    assert_eq!(creds.password, None);
}

#[test]
fn basic_splits_at_first_colon_only() {
    let header = format!("{}{}", "Basic ", STANDARD.encode("a:b:c"));
    let creds = decode_basic_str(&header, 401).unwrap();
    assert_eq!(creds.user_id, "a");
    assert_eq!(creds.password.as_deref(), Some("b:c"));
}

#[test]
fn basic_empty_user_or_password() {
    let header = format!("{}{}", "Basic ", STANDARD.encode(":pw"));
    let creds = decode_basic_str(&header, 401).unwrap();
    assert_eq!(creds.user_id, "");
    assert_eq!(creds.password.as_deref(), Some("pw"));

    let header = format!("{}{}", "Basic ", STANDARD.encode("user:"));
    let creds = decode_basic_str(&header, 401).unwrap();
    assert_eq!(creds.user_id, "user");
    assert_eq!(creds.password.as_deref(), Some(""));
}

#[test]
fn basic_non_ascii_credentials() {
    let header = format!("{}{}", "Basic ", STANDARD.encode("héllo:wörld"));
    let creds = decode_basic_str(&header, 401).unwrap();
    assert_eq!(creds.user_id, "héllo");
    assert_eq!(creds.password.as_deref(), Some("wörld"));
}

#[test]
fn basic_wrong_scheme() {
    let rej = decode_basic_str("Bearer xyz", 401).unwrap_err();
    assert_eq!(rej.status, 401);
    assert_eq!(rej.body, "`Authorization` header must be for basic authentication");
    assert_eq!(rej.challenge, None);
}

#[test]
fn basic_scheme_is_case_sensitive() {
    let rej = decode_basic_str("basic QWxhZGRpbjpvcGVuIHNlc2FtZQ==", 401).unwrap_err();
    assert_eq!(rej.body, "`Authorization` header must be for basic authentication");
}

#[test]
fn basic_invalid_base64() {
    let rej = decode_basic_str("Basic not-valid-base64!!", 401).unwrap_err();
    assert_eq!(rej.status, 401);
    assert_eq!(rej.body, "`Authorization` header could not be decoded");
    assert_eq!(rej.challenge, None);
}

#[test]
fn basic_wrong_length_base64() {
    let rej = decode_basic_str("Basic QQ=", 401).unwrap_err();
    assert_eq!(rej.body, "`Authorization` header could not be decoded");
}

#[test]
fn basic_payload_not_utf8() {
    let header = format!("{}{}", "Basic ", STANDARD.encode([0xffu8, 0xfe, 0x41]));
    let rej = decode_basic_str(&header, 401).unwrap_err();
    assert_eq!(rej.status, 401);
    assert_eq!(rej.body, "`Authorization` header could not be decoded");
    assert_eq!(rej.challenge, None);
}

#[test]
fn basic_decoder_agrees_with_base64_crate() {
    let payloads: [&[u8]; 6] = [b"", b"f", b"fo", b"foo", b"user:pass", b"a:b:c:d"];
    for payload in payloads {
        let encoded = STANDARD.encode(payload);
        let header = format!("{}{}", "Basic ", encoded);
        let text = String::from_utf8(payload.to_vec()).unwrap();
        let creds = decode_basic_str(&header, 401).unwrap();
        let expected = match text.split_once(':') {
            Some((u, p)) => (u.to_string(), Some(p.to_string())),
            None => (text.clone(), None),
        };
        assert_eq!(creds.user_id, expected.0);
        assert_eq!(creds.password, expected.1);
    }
}

#[test]
fn bearer_token_verbatim() {
    let token = decode_bearer_str("Bearer deadbeef==", 401).unwrap();
    assert_eq!(token, "deadbeef==");
}

#[test]
fn bearer_empty_token() {
    let token = decode_bearer_str("Bearer ", 401).unwrap();
    assert_eq!(token, "");
}

#[test]
fn bearer_wrong_scheme() {
    let rej = decode_bearer_str("Basic QWxhZGRpbjpvcGVuIHNlc2FtZQ==", 401).unwrap_err();
    assert_eq!(rej.status, 401);
    assert_eq!(rej.body, "`Authorization` header must be a bearer token");
    assert_eq!(rej.challenge, None);
}

#[test]
fn decoders_use_the_caller_status() {
    let rej = decode_basic_str("Bearer xyz", 418).unwrap_err();
    assert_eq!(rej.status, 418);
    let rej = decode_bearer_str("Basic xyz", 507).unwrap_err();
    assert_eq!(rej.status, 507);
}

#[test]
fn old_rejection_converts() {
    let rej = rejection_from_old((403, "no entry"));
    assert_eq!(rej.status, 403);
    assert_eq!(rej.body, "no entry");
    assert_eq!(rej.challenge, None);
}
