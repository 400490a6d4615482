//! Signing: determinism, sensitivity, and the exact header layout, checked
//! against an independent recomputation with the underlying crates.

use hmac::Mac;

use btc_client::authentificate;
use btc_client::context::sign_with;
use btc_client::context::AuthContext;
use btc_client::error::RequestBuildError;
use btc_client::error::SignatureComputeError;
use btc_client::request::get_message;
use btc_client::request::Method;

fn reference_header(public_key: &str, private_key: &str, timestamp: &str, message: &str) -> String {
    let mut mac = hmac::Hmac::<sha2::Sha256>::new_from_slice(private_key.as_bytes()).unwrap();
    mac.update(message.as_bytes());
    let digest = mac.finalize().into_bytes();
    let payload = format!("{}:{}:{}", public_key, timestamp, hex::encode(digest));
    format!("HS256 {}", base64::encode(payload.as_bytes()))
}

#[test]
fn test() {
    let url = url::Url::parse("https://google.com/hello").unwrap();
    let path = &url[url::Position::BeforePath..];
    let timestamp = btc_client::request::timestamp_now();
    let result = authentificate(
        "PUBLIC_KEY",
        "SECRET_LEY",
        Method::Get,
        timestamp.as_str(),
        path,
        Vec::new(),
    )
    .unwrap();
    println!("{}", result);
}

#[test]
fn end_to_end_header_layout() {
    let message = get_message(Method::Get, "1610000000", "/api/2/order", "");
    assert_eq!(message.as_str(), "GET1610000000/api/2/order");
    let header = sign_with("PUBLIC_KEY", "SECRET_KEY", "1610000000", message.as_str());
    assert!(header.starts_with("HS256 "));
    let expected = reference_header("PUBLIC_KEY", "SECRET_KEY", "1610000000", message.as_str());
    assert_eq!(header, expected);
}

#[test]
fn end_to_end_header_via_authentificate() {
    let header = authentificate(
        "PUBLIC_KEY",
        "SECRET_KEY",
        Method::Get,
        "1610000000",
        "/api/2/order",
        Vec::new(),
    )
    .unwrap();
    let expected = reference_header(
        "PUBLIC_KEY",
        "SECRET_KEY",
        "1610000000",
        "GET1610000000/api/2/order",
    );
    assert_eq!(header, expected);
}

#[test]
fn signing_is_deterministic() {
    let first = sign_with("pk", "sk", "1610000000", "GET1610000000/api/2/order");
    let second = sign_with("pk", "sk", "1610000000", "GET1610000000/api/2/order");
    assert_eq!(first, second);
}

#[test]
fn signature_changes_with_any_message_byte() {
    let message = "GET1610000000/api/2/order";
    let base = sign_with("pk", "sk", "1610000000", message);
    for i in 0..message.len() {
        let mut altered: Vec<u8> = message.as_bytes().to_vec();
        altered[i] = altered[i].wrapping_add(1);
        let altered = String::from_utf8(altered).unwrap();
        let changed = sign_with("pk", "sk", "1610000000", altered.as_str());
        assert_ne!(base, changed, "byte {} did not affect the signature", i);
    }
}

#[test]
fn signature_changes_with_method_timestamp_path_and_body() {
    let pieces = |method: Method, ts: &str, path: &str, body: &str| {
        let message = get_message(method, ts, path, body);
        sign_with("pk", "sk", ts, message.as_str())
    };
    let base = pieces(Method::Get, "1610000000", "/api/2/order", "");
    assert_ne!(base, pieces(Method::Post, "1610000000", "/api/2/order", ""));
    assert_ne!(base, pieces(Method::Get, "1610000001", "/api/2/order", ""));
    assert_ne!(base, pieces(Method::Get, "1610000000", "/api/2/trade", ""));
    assert_ne!(base, pieces(Method::Get, "1610000000", "/api/2/order", "x"));
}

#[test]
fn non_utf8_body_is_rejected_before_signing() {
    let result = authentificate(
        "pk",
        "sk",
        Method::Post,
        "1610000000",
        "/api/2/order",
        vec![0xff, 0xfe, 0x80],
    );
    assert!(matches!(result, Err(RequestBuildError::NonUtf8Body)));
}

#[test]
fn empty_private_key_is_rejected_at_construction() {
    let rejected = AuthContext::new("pk".to_string(), String::new());
    assert!(matches!(
        rejected,
        Err(SignatureComputeError::EmptyPrivateKey)
    ));
    assert!(AuthContext::new("pk".to_string(), "sk".to_string()).is_ok());
}

#[test]
fn any_key_length_signs() {
    let long_key = "k".repeat(200);
    let with_long = sign_with("pk", long_key.as_str(), "1", "GET1/x");
    let with_short = sign_with("pk", "k", "1", "GET1/x");
    assert!(with_long.starts_with("HS256 "));
    assert_ne!(with_long, with_short);
}
