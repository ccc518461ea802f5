use ed25519_dalek::Signer;
use ed25519_dalek::SigningKey;
use twilight_cloudflare_workers::hex::hex_decode_bytes;
use twilight_cloudflare_workers::request;
use twilight_cloudflare_workers::InteractionRequestHeaderName;
use twilight_cloudflare_workers::ProcessRequestError;
use twilight_cloudflare_workers::ProcessRequestErrorType;
use twilight_model::application::interaction::Interaction;
use twilight_model::application::interaction::InteractionType;

const PING_BODY: &str = "{\"application_id\":\"100\",\"authorizing_integration_owners\":{},\"id\":\"200\",\"token\":\"interaction-token\",\"type\":1}";

fn to_hex(bytes: &[u8]) -> String {
    let mut out = String::new();
    for b in bytes {
        out.push_str(&format!("{:02x}", b));
    }
    out
}

fn keypair() -> (SigningKey, String) {
    let signing = SigningKey::from_bytes(&[7u8; 32]);
    let key_hex = to_hex(&signing.verifying_key().to_bytes());
    (signing, key_hex)
}

fn signed_request(
    timestamp: &str,
    body: &[u8],
) -> (String, String, String, Vec<u8>) {
    let (signing, key_hex) = keypair();
    let mut message = timestamp.as_bytes().to_vec();
    message.extend_from_slice(body);
    let signature_hex = to_hex(&signing.sign(&message).to_bytes());
    (key_hex, timestamp.to_string(), signature_hex, body.to_vec())
}

fn run(
    method: &str,
    path: &str,
    timestamp: Option<&str>,
    signature: Option<&str>,
    key_hex: &str,
    body: Result<Vec<u8>, &str>,
) -> Result<Interaction, ProcessRequestError> {
    request(
        method.to_string(),
        path.to_string(),
        timestamp.map(|t| t.to_string()),
        signature.map(|s| s.to_string()),
        key_hex,
        body.map_err(|e| e.to_string()),
    )
}

fn invalid_key_hex() -> String {
    let mut bytes = [0u8; 32];
    let mut first: u8 = 0;
    loop {
        bytes[0] = first;
        if ed25519_dalek::VerifyingKey::from_bytes(&bytes).is_err() {
            return to_hex(&bytes);
        }
        first += 1;
    }
}

fn sig_of_64_zero_bytes() -> String {
    to_hex(&[0u8; 64])
}

#[test]
fn route_wrong_method_rejected() {
    let err = run("GET", "/", Some("1"), Some("ab"), "", Err("x")).unwrap_err();
    match err.kind() {
        ProcessRequestErrorType::RouteIncorrect { method, path } => {
            assert_eq!(method, "GET");
            assert_eq!(path, "/");
        }
        other => panic!("unexpected kind: {:?}", other),
    }
    assert_eq!(
        err.message(),
        "route of the request ('GET /') is not 'POST /'"
    );
    assert_eq!(err.response().status, 500);
    assert!(err.into_source().is_none());
}

#[test]
fn route_wrong_path_rejected() {
    let err = run("POST", "/webhook", None, None, "", Err("x")).unwrap_err();
    assert!(matches!(
        err.kind(),
        ProcessRequestErrorType::RouteIncorrect { .. }
    ));
}

#[test]
fn missing_timestamp_reported_first() {
    let err = run("POST", "/", None, None, "", Err("x")).unwrap_err();
    match err.kind() {
        ProcessRequestErrorType::MissingHeader { header } => {
            assert_eq!(*header, InteractionRequestHeaderName::Timestamp);
        }
        other => panic!("unexpected kind: {:?}", other),
    }
    assert_eq!(err.message(), "header 'x-signature-timestamp' is missing");
    assert_eq!(err.response().status, 500);
    assert!(err.source().is_none());
}

#[test]
fn missing_signature_reported() {
    let err = run("POST", "/", Some("1"), None, "", Err("x")).unwrap_err();
    match err.kind() {
        ProcessRequestErrorType::MissingHeader { header } => {
            assert_eq!(*header, InteractionRequestHeaderName::Signature);
        }
        other => panic!("unexpected kind: {:?}", other),
    }
    assert_eq!(err.message(), "header 'x-signature-ed25519' is missing");
}

#[test]
fn non_hex_signature_rejected() {
    let err = run("POST", "/", Some("1"), Some("zz"), "", Err("x")).unwrap_err();
    assert!(matches!(
        err.kind(),
        ProcessRequestErrorType::InvalidSignature
    ));
    assert_eq!(err.response().status, 401);
    assert_eq!(
        err.into_source().as_deref(),
        Some("signature header is not hex encoding 64 bytes")
    );
}

#[test]
fn short_signature_rejected() {
    let err = run("POST", "/", Some("1"), Some("abcd"), "", Err("x")).unwrap_err();
    assert!(matches!(
        err.kind(),
        ProcessRequestErrorType::InvalidSignature
    ));
}

#[test]
fn non_hex_key_rejected() {
    let sig = sig_of_64_zero_bytes();
    let err = run("POST", "/", Some("1"), Some(&sig), "not-hex", Err("x")).unwrap_err();
    assert!(matches!(err.kind(), ProcessRequestErrorType::FromHex));
    assert_eq!(err.message(), "failed to register public key");
    assert_eq!(err.response().status, 500);
    assert_eq!(
        err.into_source().as_deref(),
        Some("public key is not hex encoding 32 bytes")
    );
}

#[test]
fn short_key_rejected() {
    let sig = sig_of_64_zero_bytes();
    let err = run("POST", "/", Some("1"), Some(&sig), "a1b2", Err("x")).unwrap_err();
    assert!(matches!(err.kind(), ProcessRequestErrorType::FromHex));
}

#[test]
fn invalid_key_point_rejected() {
    let sig = sig_of_64_zero_bytes();
    let key = invalid_key_hex();
    let err = run("POST", "/", Some("1"), Some(&sig), &key, Err("x")).unwrap_err();
    assert!(matches!(
        err.kind(),
        ProcessRequestErrorType::InvalidPublicKey
    ));
    assert_eq!(err.message(), "public key is invalid");
    assert_eq!(err.response().status, 500);
    assert!(err.into_source().is_some());
}

#[test]
fn unread_body_reported_as_chunking() {
    let (key_hex, ts, sig, _) = signed_request("1700000000", PING_BODY.as_bytes());
    let err = run(
        "POST",
        "/",
        Some(&ts),
        Some(&sig),
        &key_hex,
        Err("stream interrupted"),
    )
    .unwrap_err();
    assert!(matches!(err.kind(), ProcessRequestErrorType::ChunkingBody));
    assert_eq!(err.message(), "failed to chunk request body");
    assert_eq!(err.response().status, 500);
    assert_eq!(
        err.source().map(String::as_str),
        Some("stream interrupted")
    );
    assert_eq!(err.into_source().as_deref(), Some("stream interrupted"));
}

#[test]
fn signed_ping_accepted() {
    let (key_hex, ts, sig, body) = signed_request("1700000000", PING_BODY.as_bytes());
    let interaction = run("POST", "/", Some(&ts), Some(&sig), &key_hex, Ok(body)).unwrap();
    assert_eq!(interaction.kind, InteractionType::Ping);
}

#[test]
fn tampered_body_rejected() {
    let (key_hex, ts, sig, mut body) = signed_request("1700000000", PING_BODY.as_bytes());
    body[0] = b'[';
    let err = run("POST", "/", Some(&ts), Some(&sig), &key_hex, Ok(body)).unwrap_err();
    assert!(matches!(
        err.kind(),
        ProcessRequestErrorType::InvalidSignature
    ));
    assert_eq!(err.message(), "signature is invalid");
    assert_eq!(err.response().status, 401);
    assert!(err.into_source().is_some());
}

#[test]
fn different_timestamp_rejected() {
    let (key_hex, _, sig, body) = signed_request("1700000000", PING_BODY.as_bytes());
    let err = run(
        "POST",
        "/",
        Some("1700000001"),
        Some(&sig),
        &key_hex,
        Ok(body),
    )
    .unwrap_err();
    assert!(matches!(
        err.kind(),
        ProcessRequestErrorType::InvalidSignature
    ));
}

#[test]
fn well_formed_but_unrelated_signature_rejected() {
    let (key_hex, ts, _, body) = signed_request("1700000000", PING_BODY.as_bytes());
    let sig = sig_of_64_zero_bytes();
    let err = run("POST", "/", Some(&ts), Some(&sig), &key_hex, Ok(body)).unwrap_err();
    assert!(matches!(
        err.kind(),
        ProcessRequestErrorType::InvalidSignature
    ));
}

#[test]
fn verified_non_json_body_reported_with_bytes() {
    let raw = b"not json at all".to_vec();
    let (key_hex, ts, sig, body) = signed_request("1700000000", &raw);
    let err = run("POST", "/", Some(&ts), Some(&sig), &key_hex, Ok(body)).unwrap_err();
    match err.kind() {
        ProcessRequestErrorType::DeserializingInteraction { body } => {
            assert_eq!(body, &raw);
        }
        other => panic!("unexpected kind: {:?}", other),
    }
    assert_eq!(
        err.message(),
        "failed to deserialize request body as interaction"
    );
    assert_eq!(err.response().status, 500);
    let (kind, source) = err.into_parts();
    assert!(matches!(
        kind,
        ProcessRequestErrorType::DeserializingInteraction { .. }
    ));
    assert!(source.is_some());
}

#[test]
fn verifier_is_idempotent_on_success() {
    let (key_hex, ts, sig, body) = signed_request("1700000000", PING_BODY.as_bytes());
    let first = run(
        "POST",
        "/",
        Some(&ts),
        Some(&sig),
        &key_hex,
        Ok(body.clone()),
    )
    .unwrap();
    let second = run("POST", "/", Some(&ts), Some(&sig), &key_hex, Ok(body)).unwrap();
    assert_eq!(first, second);
}

#[test]
fn verifier_is_idempotent_on_failure() {
    let first = run("GET", "/", None, None, "", Err("x")).unwrap_err();
    let second = run("GET", "/", None, None, "", Err("x")).unwrap_err();
    assert_eq!(first.message(), second.message());
    assert_eq!(first.response().status, second.response().status);
}

#[test]
fn prepared_split_matches_combined_run() {
    let (key_hex, ts, sig, body) = signed_request("1700000000", PING_BODY.as_bytes());
    let prepared = twilight_cloudflare_workers::prepare(
        "POST".to_string(),
        "/".to_string(),
        Some(ts.clone()),
        Some(sig.clone()),
        &key_hex,
    )
    .unwrap();
    let split = twilight_cloudflare_workers::complete(&prepared, Ok(body.clone())).unwrap();
    let combined = run("POST", "/", Some(&ts), Some(&sig), &key_hex, Ok(body)).unwrap();
    assert_eq!(split, combined);
}

#[test]
fn header_names_match_wire_names() {
    assert_eq!(
        InteractionRequestHeaderName::Signature.name(),
        "x-signature-ed25519"
    );
    assert_eq!(
        InteractionRequestHeaderName::Timestamp.name(),
        "x-signature-timestamp"
    );
}

#[test]
fn hex_decoding_accepts_both_cases() {
    assert_eq!(hex_decode_bytes(b"a1B2"), Some(vec![0xa1, 0xb2]));
    assert_eq!(hex_decode_bytes(b""), Some(vec![]));
    assert_eq!(hex_decode_bytes(b"00ff"), Some(vec![0x00, 0xff]));
}

#[test]
fn hex_decoding_rejects_malformed_input() {
    assert_eq!(hex_decode_bytes(b"a"), None);
    assert_eq!(hex_decode_bytes(b"a1b"), None);
    assert_eq!(hex_decode_bytes(b"g1"), None);
    assert_eq!(hex_decode_bytes(b"0x12"), None);
}
