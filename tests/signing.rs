use base64::Engine;
use sha2::Digest;
use signed_exchange::client::Client;
use signed_exchange::error::ClientError;
use signed_exchange::signing::{digest, sign, signing_text, verify};
use signed_exchange::wire::{canonical_response, SignedResponse};

fn expected_digest(bytes: &[u8]) -> String {
    base64::engine::general_purpose::STANDARD.encode(sha2::Sha256::digest(bytes))
}

#[test]
fn concrete_signature_scenario() {
    let sig = sign("c1", 1000, "n1", "k1");
    assert_eq!(sig, expected_digest(b"c1:1000:n1k1"));
    assert_eq!(sig.len(), 44);
    assert!(sig.ends_with('='));
    assert!(sig[..43]
        .chars()
        .all(|c| c.is_ascii_alphanumeric() || c == '+' || c == '/'));
}

#[test]
fn signing_text_joins_fields() {
    assert_eq!(signing_text("c1", 1000, "n1"), "c1:1000:n1");
    assert_eq!(signing_text("", 0, ""), ":0:");
    assert_eq!(
        signing_text("id", u64::MAX, "x-y"),
        "id:18446744073709551615:x-y"
    );
}

#[test]
fn sign_is_deterministic() {
    let a = sign("client1", 1_700_000_000, "abc", "test_key_1");
    let b = sign("client1", 1_700_000_000, "abc", "test_key_1");
    assert_eq!(a, b);
    assert_ne!(a, sign("client1", 1_700_000_001, "abc", "test_key_1"));
}

#[test]
fn verify_accepts_own_signature_and_rejects_other_secret() {
    let sig = sign("c1", 1000, "n1", "k1");
    assert!(verify("c1:1000:n1", &sig, "k1"));
    assert!(!verify("c1:1000:n1", &sig, "k2"));
    assert!(!verify("c1:1000:n2", &sig, "k1"));
}

#[test]
fn digest_appends_secret() {
    assert_eq!(digest("hello", "world"), expected_digest(b"helloworld"));
    assert_eq!(digest("", ""), expected_digest(b""));
    assert_ne!(digest("hello", "world"), "hello");
}

fn signed_response(data: &str, server_key: &str) -> SignedResponse {
    let mut r = SignedResponse {
        status: true,
        data: data.to_string(),
        session_id: "s-1".to_string(),
        timestamp: 77,
        signature: String::new(),
    };
    let text = canonical_response(&r);
    r.signature = digest(&text, server_key);
    r
}

#[test]
fn canonical_response_text() {
    let r = SignedResponse {
        status: false,
        data: "a\"b\n".to_string(),
        session_id: "s".to_string(),
        timestamp: 5,
        signature: "ignored".to_string(),
    };
    assert_eq!(
        canonical_response(&r),
        "{\"status\":false,\"data\":\"a\\\"b\\n\",\"session_id\":\"s\",\"timestamp\":5,\"signature\":\"\"}"
    );
}

#[test]
fn genuine_response_is_accepted_and_starts_session() {
    let mut c = Client::new(
        "c1".to_string(),
        "k1".to_string(),
        "server_key".to_string(),
        None,
        100,
    );
    let r = signed_response("result", "server_key");
    let out = c.accept_response(r.clone(), 500).unwrap();
    assert_eq!(out, r);
    let s = c.session.clone().unwrap();
    assert_eq!(s.session_id, "s-1");
    assert_eq!(s.client_id, "c1");
    assert_eq!(s.created_at, 500);
    assert_eq!(s.last_used, 500);
}

#[test]
fn altered_data_fails_verification() {
    let mut c = Client::new(
        "c1".to_string(),
        "k1".to_string(),
        "server_key".to_string(),
        None,
        100,
    );
    let mut r = signed_response("result", "server_key");
    r.data = "forged".to_string();
    assert_eq!(c.accept_response(r, 500), Err(ClientError::SignatureError));
    assert!(c.session.is_none());
}

#[test]
fn response_signed_with_other_secret_is_rejected() {
    let mut c = Client::new(
        "c1".to_string(),
        "k1".to_string(),
        "server_key".to_string(),
        None,
        100,
    );
    let r = signed_response("result", "other_key");
    assert_eq!(c.accept_response(r, 500), Err(ClientError::SignatureError));
}

#[test]
fn accept_checked_uses_given_text() {
    let mut c = Client::new("c1".to_string(), "k1".to_string(), "sk".to_string(), None, 0);
    let r = SignedResponse {
        status: true,
        data: "d".to_string(),
        session_id: "z".to_string(),
        timestamp: 1,
        signature: digest("covered", "sk"),
    };
    assert_eq!(c.accept_checked(r.clone(), "covered", 9), Ok(r.clone()));
    assert_eq!(c.session.as_ref().unwrap().session_id, "z");
    assert_eq!(
        c.accept_checked(r, "not covered", 10),
        Err(ClientError::SignatureError)
    );
    assert_eq!(c.session.as_ref().unwrap().created_at, 9);
}
