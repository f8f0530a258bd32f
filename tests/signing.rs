use clob_client::{
    build_hmac_message, build_hmac_signature, build_hmac_signature_from_str, format_hmac_body,
    l1_headers, l2_headers, string_array, string_object, Address, ApiCreds, ClobError, JsonBody,
    U256,
};
use serde_json_fmt::JsonFormat;

const SECRET: &str = "AAAAAAAAAAAAAAAAAAAAAAAAAAAAAAAAAAAAAAAAAAA=";

fn hash_body() -> JsonBody {
    JsonBody::Object(vec![("hash".to_string(), JsonBody::Str("0x123".to_string()))])
}

fn reference_format(value: &serde_json::Value) -> String {
    JsonFormat::new()
        .comma(", ")
        .unwrap()
        .colon(": ")
        .unwrap()
        .format_to_string(value)
        .unwrap()
}

#[test]
fn test_build_hmac_signature() {
    let body = hash_body();
    let signature = build_hmac_signature(
        "AAAAAAAAAAAAAAAAAAAAAAAAAAAAAAAAAAAAAAAAAAA=",
        1000000,
        "test-sign",
        "/orders",
        Some(&body),
    )
    .unwrap();

    assert_eq!(signature, "ZwAdJKvoYRlEKDkNMwd5BuwNNtg93kNaR_oU2HrfVvc=");
}

#[test]
fn signature_from_canonical_text_matches_structured_body() {
    let text = format_hmac_body(&hash_body());
    assert_eq!(text, "{\"hash\": \"0x123\"}");
    let signature =
        build_hmac_signature_from_str(SECRET, 1000000, "test-sign", "/orders", Some(&text))
            .unwrap();
    assert_eq!(signature, "ZwAdJKvoYRlEKDkNMwd5BuwNNtg93kNaR_oU2HrfVvc=");
}

#[test]
fn changed_body_changes_signature() {
    let a = build_hmac_signature_from_str(SECRET, 1000000, "test-sign", "/orders", Some("{\"hash\": \"0x123\"}")).unwrap();
    let b = build_hmac_signature_from_str(SECRET, 1000000, "test-sign", "/orders", Some("{\"hash\": \"0x124\"}")).unwrap();
    let c = build_hmac_signature_from_str(SECRET, 1000000, "test-sign", "/orders", None).unwrap();
    assert_ne!(a, b);
    assert_ne!(a, c);
    assert_ne!(b, c);
}

#[test]
fn signature_is_url_safe_base64_of_a_sha256_tag() {
    let signature = build_hmac_signature_from_str(SECRET, 1, "GET", "/x", None).unwrap();
    assert_eq!(signature.len(), 44);
    assert!(signature.ends_with('='));
    assert!(!signature.contains('+') && !signature.contains('/'));
}

#[test]
fn undecodable_secret_is_rejected() {
    let r = build_hmac_signature_from_str("not base64 at all!", 1, "GET", "/x", None);
    assert!(matches!(r, Err(ClobError::InvalidSecret)));
    let r = build_hmac_signature("++//", 1, "GET", "/x", Some(&hash_body()));
    assert!(matches!(r, Err(ClobError::InvalidSecret)));
}

#[test]
fn hmac_message_layout() {
    assert_eq!(build_hmac_message(1000000, "GET", "/orders", None), "1000000GET/orders");
    assert_eq!(
        build_hmac_message(0, "POST", "/order", Some("{\"a\": 1}")),
        "0POST/order{\"a\": 1}"
    );
}

#[test]
fn canonical_text_of_scalars() {
    assert_eq!(format_hmac_body(&JsonBody::Null), "null");
    assert_eq!(format_hmac_body(&JsonBody::Bool(true)), "true");
    assert_eq!(format_hmac_body(&JsonBody::Bool(false)), "false");
    assert_eq!(format_hmac_body(&JsonBody::UInt(0)), "0");
    assert_eq!(format_hmac_body(&JsonBody::UInt(18446744073709551615)), "18446744073709551615");
    assert_eq!(format_hmac_body(&JsonBody::Array(vec![])), "[]");
    assert_eq!(format_hmac_body(&JsonBody::Object(vec![])), "{}");
}

#[test]
fn canonical_text_escapes_like_serde_json() {
    let raw = "q\"b\\n\nr\rt\tb\u{8}f\u{c}c\u{1}\u{1f}del\u{7f}é€😀";
    let ours = format_hmac_body(&JsonBody::Str(raw.to_string()));
    let reference = reference_format(&serde_json::Value::String(raw.to_string()));
    assert_eq!(ours, reference);
    assert_eq!(
        ours,
        "\"q\\\"b\\\\n\\nr\\rt\\tb\\bf\\fc\\u0001\\u001fdel\u{7f}é€😀\""
    );
}

#[test]
fn canonical_text_of_nested_body_matches_reference_formatter() {
    let ours = format_hmac_body(&JsonBody::Object(vec![
        ("a".to_string(), JsonBody::Array(vec![JsonBody::UInt(1), JsonBody::Str("x".to_string()), JsonBody::Null])),
        ("b".to_string(), JsonBody::Object(vec![("c".to_string(), JsonBody::Bool(true)), ("d".to_string(), JsonBody::Object(vec![]))])),
        ("e".to_string(), JsonBody::Array(vec![])),
    ]));
    let mut inner = serde_json::Map::new();
    inner.insert("c".to_string(), serde_json::Value::Bool(true));
    inner.insert("d".to_string(), serde_json::Value::Object(serde_json::Map::new()));
    let mut outer = serde_json::Map::new();
    outer.insert(
        "a".to_string(),
        serde_json::Value::Array(vec![
            serde_json::Value::from(1u64),
            serde_json::Value::String("x".to_string()),
            serde_json::Value::Null,
        ]),
    );
    outer.insert("b".to_string(), serde_json::Value::Object(inner));
    outer.insert("e".to_string(), serde_json::Value::Array(vec![]));
    let reference = reference_format(&serde_json::Value::Object(outer));
    assert_eq!(ours, reference);
    assert_eq!(ours, "{\"a\": [1, \"x\", null], \"b\": {\"c\": true, \"d\": {}}, \"e\": []}");
}

#[test]
fn string_array_and_object_bodies() {
    let ids = vec!["0xaa".to_string(), "0xbb".to_string()];
    assert_eq!(format_hmac_body(&string_array(&ids)), "[\"0xaa\", \"0xbb\"]");
    let entries = vec![("market", "m1".to_string()), ("asset_id", "".to_string())];
    assert_eq!(
        format_hmac_body(&string_object(&entries)),
        "{\"market\": \"m1\", \"asset_id\": \"\"}"
    );
}

fn sample_address() -> Address {
    let mut bytes = [0u8; 20];
    for (i, b) in bytes.iter_mut().enumerate() {
        *b = (i as u8) * 13 + 1;
    }
    Address { bytes }
}

#[test]
fn l2_headers_carry_credentials_and_the_signed_body() {
    let creds = ApiCreds {
        api_key: "key-1".to_string(),
        secret: SECRET.to_string(),
        passphrase: "pass-1".to_string(),
    };
    let body = hash_body();
    let (headers, body_text) =
        l2_headers(&sample_address(), &creds, 1000000, "test-sign", "/orders", Some(&body)).unwrap();
    let body_text = body_text.unwrap();
    assert_eq!(body_text, "{\"hash\": \"0x123\"}");
    let names: Vec<&str> = headers.iter().map(|h| h.0).collect();
    assert_eq!(
        names,
        vec!["poly_address", "poly_signature", "poly_timestamp", "poly_api_key", "poly_passphrase"]
    );
    assert_eq!(headers[0].1, "0x010e1b2835424f5c697683909daab7c4d1deebf8");
    assert_eq!(headers[1].1, "ZwAdJKvoYRlEKDkNMwd5BuwNNtg93kNaR_oU2HrfVvc=");
    assert_eq!(headers[2].1, "1000000");
    assert_eq!(headers[3].1, "key-1");
    assert_eq!(headers[4].1, "pass-1");
    let resigned =
        build_hmac_signature_from_str(SECRET, 1000000, "test-sign", "/orders", Some(&body_text))
            .unwrap();
    assert_eq!(resigned, headers[1].1);
    assert_eq!(format_hmac_body(&body), body_text);
}

#[test]
fn l2_headers_without_body() {
    let creds = ApiCreds {
        api_key: "k".to_string(),
        secret: SECRET.to_string(),
        passphrase: "p".to_string(),
    };
    let (headers, body_text) =
        l2_headers(&sample_address(), &creds, 5, "GET", "/auth/api-keys", None).unwrap();
    assert!(body_text.is_none());
    let expected = build_hmac_signature_from_str(SECRET, 5, "GET", "/auth/api-keys", None).unwrap();
    assert_eq!(headers[1].1, expected);
}

#[test]
fn l2_headers_reject_bad_secret() {
    let creds = ApiCreds {
        api_key: "k".to_string(),
        secret: "%%%".to_string(),
        passphrase: "p".to_string(),
    };
    let r = l2_headers(&sample_address(), &creds, 5, "GET", "/x", None);
    assert!(matches!(r, Err(ClobError::InvalidSecret)));
}

#[test]
fn l1_headers_layout() {
    let nonce = U256 { limbs: [0, 1, 0, 0] };
    let headers = l1_headers(&sample_address(), "0xsig".to_string(), 1700000000, &nonce);
    let pairs: Vec<(&str, &str)> = headers.iter().map(|h| (h.0, h.1.as_str())).collect();
    assert_eq!(
        pairs,
        vec![
            ("poly_address", "0x010e1b2835424f5c697683909daab7c4d1deebf8"),
            ("poly_signature", "0xsig"),
            ("poly_timestamp", "1700000000"),
            ("poly_nonce", "18446744073709551616"),
        ]
    );
}
