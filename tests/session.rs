use signed_exchange::client::Client;
use signed_exchange::session::{load_session, Session};
use signed_exchange::wire::{request_json, SignedRequest};

fn record(client: &str, created_at: u64) -> Session {
    Session {
        session_id: "sess".to_string(),
        client_id: client.to_string(),
        created_at,
        last_used: created_at,
    }
}

#[test]
fn session_inside_ttl_loads() {
    let now = 10_000;
    let s = record("A", now - 3599);
    assert_eq!(load_session(Some(s.clone()), "A", now), Some(s));
}

#[test]
fn session_at_exact_ttl_loads() {
    let now = 10_000;
    let s = record("A", now - 3600);
    assert_eq!(load_session(Some(s.clone()), "A", now), Some(s));
}

#[test]
fn session_past_ttl_is_dropped() {
    let now = 10_000;
    assert_eq!(load_session(Some(record("A", now - 3601)), "A", now), None);
}

#[test]
fn session_of_other_client_is_dropped() {
    assert_eq!(load_session(Some(record("A", 100)), "B", 100), None);
}

#[test]
fn missing_record_gives_no_session() {
    assert_eq!(load_session(None, "A", 100), None);
}

#[test]
fn client_new_resumes_valid_session_only() {
    let c = Client::new("A".into(), "k".into(), "s".into(), Some(record("A", 50)), 60);
    assert_eq!(c.session, Some(record("A", 50)));
    let c = Client::new("B".into(), "k".into(), "s".into(), Some(record("A", 50)), 60);
    assert_eq!(c.session, None);
}

#[test]
fn request_carries_session_and_signature() {
    let c = Client::new("c1".into(), "k1".into(), "s".into(), Some(record("c1", 50)), 60);
    let r = c.build_request(1000, "n1".to_string(), "SELECT 1".to_string());
    assert_eq!(r.client_id, "c1");
    assert_eq!(r.timestamp, 1000);
    assert_eq!(r.nonce, "n1");
    assert_eq!(r.signature, signed_exchange::signing::sign("c1", 1000, "n1", "k1"));
    assert_eq!(r.session_id, Some("sess".to_string()));
    assert_eq!(r.payload, "SELECT 1");
}

#[test]
fn prepared_requests_get_distinct_nonces() {
    let c = Client::new("c1".into(), "k1".into(), "s".into(), None, 60);
    let a = c.prepare_request(1000, "q".to_string());
    let b = c.prepare_request(1000, "q".to_string());
    assert_ne!(a.nonce, b.nonce);
    assert_eq!(a.session_id, None);
    assert_eq!(a.signature, signed_exchange::signing::sign("c1", 1000, &a.nonce, "k1"));
}

#[test]
fn request_json_text() {
    let r = SignedRequest {
        client_id: "c1".to_string(),
        timestamp: 1000,
        nonce: "n1".to_string(),
        signature: "sig=".to_string(),
        session_id: None,
        payload: "q \"x\"".to_string(),
    };
    assert_eq!(
        request_json(&r),
        "{\"client_id\":\"c1\",\"timestamp\":1000,\"nonce\":\"n1\",\"signature\":\"sig=\",\"session_id\":null,\"wql_query\":\"q \\\"x\\\"\"}"
    );
    let r2 = SignedRequest { session_id: Some("s9".to_string()), ..r };
    assert!(request_json(&r2).contains("\"session_id\":\"s9\""));
}
