use twitter_oracle::registry::{Contract, LinkError};
use twitter_oracle::OracleResponse;

fn seed_from(n: u32) -> Vec<u8> {
    let mut seed = vec![0u8; 32];
    seed[0] = (n & 0xff) as u8;
    seed[1] = ((n >> 8) & 0xff) as u8;
    seed[2] = ((n >> 16) & 0xff) as u8;
    seed[3] = ((n >> 24) & 0xff) as u8;
    seed
}

fn fresh_registry() -> Contract {
    Contract::new(String::from("oracle.near"), String::from("producer.near"))
}

#[test]
fn init_linking_returns_fixed_length_hex_id() {
    let mut reg = fresh_registry();
    let seed: Vec<u8> = (0u8..32u8).collect();
    let id = reg.init_linking(String::from("alice"), 7, &seed);
    assert_eq!(id.len(), 32);
    assert_eq!(id, "000102030405060708090a0b0c0d0e0f");
    assert!(id.chars().all(|c| c.is_ascii_hexdigit() && !c.is_ascii_uppercase()));
}

#[test]
fn init_linking_ids_never_collide() {
    let mut reg = fresh_registry();
    let mut seen = std::collections::HashSet::new();
    for n in 0u32..10_000u32 {
        let id = reg.init_linking(String::from("alice"), 0, &seed_from(n));
        assert_eq!(id.len(), 32);
        assert!(id.chars().all(|c| c.is_ascii_hexdigit() && !c.is_ascii_uppercase()));
        assert!(seen.insert(id), "duplicate linking id for seed {n}");
    }
}

#[test]
fn verify_link_unknown_id_fails_not_found() {
    let mut reg = fresh_registry();
    let seed = seed_from(1);
    let _ = reg.init_linking(String::from("alice"), 0, &seed);
    let r = reg.verify_link(
        &String::from("alice"),
        &String::from("ffffffffffffffffffffffffffffffff"),
        &String::from("token"),
    );
    assert_eq!(r.err(), Some(LinkError::NotFound));
}

#[test]
fn verify_link_wrong_caller_fails_unauthorized() {
    let mut reg = fresh_registry();
    let id = reg.init_linking(String::from("alice"), 0, &seed_from(2));
    let r = reg.verify_link(&String::from("mallory"), &id, &String::from("token"));
    assert_eq!(r.err(), Some(LinkError::Unauthorized));
}

#[test]
fn verify_link_owner_builds_hub_request() {
    let mut reg = fresh_registry();
    let id = reg.init_linking(String::from("alice"), 0, &seed_from(3));
    let req = reg
        .verify_link(&String::from("alice"), &id, &String::from("tok-123"))
        .expect("owner call should succeed");
    assert_eq!(req.receiver, "oracle.near");
    assert_eq!(req.producer_id, "producer.near");
    assert_eq!(
        req.request_data,
        format!("{{\"oauth_token\":\"tok-123\",\"linking_id\":\"{id}\"}}")
    );
}

#[test]
fn on_response_without_response_fails() {
    let mut reg = fresh_registry();
    let r = reg.on_response(None);
    assert_eq!(r.err(), Some(LinkError::NoResponse));
}

#[test]
fn on_response_malformed_payload_fails() {
    let mut reg = fresh_registry();
    let r = reg.on_response(Some(OracleResponse {
        response_data: String::from("not json"),
        refund_amount: None,
    }));
    assert_eq!(r.err(), Some(LinkError::MalformedResponse));
}

#[test]
fn on_response_unknown_handle_fails() {
    let mut reg = fresh_registry();
    let r = reg.on_response(Some(OracleResponse {
        response_data: String::from("{\"handle\":\"nobody\",\"user_id\":\"1\"}"),
        refund_amount: None,
    }));
    assert_eq!(r.err(), Some(LinkError::PendingMissing));
}

#[test]
fn on_response_stores_link_and_consumes_pending() {
    let mut reg = fresh_registry();
    let id = reg.init_linking(String::from("alice"), 0, &seed_from(4));
    // The response correlates back through the handle member; only a handle
    // equal to a pending linking identifier finds its owner.
    let data = format!("{{\"handle\":\"{id}\",\"user_id\":\"42\"}}");
    let r = reg.on_response(Some(OracleResponse {
        response_data: data,
        refund_amount: None,
    }));
    assert!(r.is_ok());
    let stored = reg
        .get_twitter_link(&String::from("alice"))
        .expect("link should be stored for the owner");
    assert_eq!(stored.handle, id);
    assert_eq!(stored.user_id, "42");
    // The pending entry is gone: a second response with the same handle fails.
    let data2 = format!("{{\"handle\":\"{id}\",\"user_id\":\"42\"}}");
    let r2 = reg.on_response(Some(OracleResponse {
        response_data: data2,
        refund_amount: None,
    }));
    assert_eq!(r2.err(), Some(LinkError::PendingMissing));
}

#[test]
fn get_twitter_link_absent_account_is_none() {
    let reg = fresh_registry();
    assert!(reg.get_twitter_link(&String::from("nobody")).is_none());
}
