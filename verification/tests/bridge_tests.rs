use twitter_oracle::bridge::{BridgeError, Contract, TwitterVerification};
use twitter_oracle::PrepaidFee;

const HUB: &str = "oracle.near";

fn fresh_bridge() -> Contract {
    Contract::new(String::from(HUB))
}

fn request_payload(account: &str) -> String {
    format!("{{\"oauth_token\":\"tok\",\"near_account_id\":\"{account}\"}}")
}

fn verdict(account: &str, verified: bool) -> TwitterVerification {
    TwitterVerification {
        twitter_id: String::from("42"),
        twitter_username: String::from("alice_tw"),
        near_account_id: String::from(account),
        verified,
    }
}

fn bridge_with_request(account: &str, fee: PrepaidFee) -> Contract {
    let mut bridge = fresh_bridge();
    bridge
        .on_request(
            &String::from(HUB),
            String::from("req-1"),
            &request_payload(account),
            fee,
        )
        .expect("hub request should be accepted");
    bridge
}

#[test]
fn on_request_from_other_caller_is_forbidden() {
    let mut bridge = fresh_bridge();
    let r = bridge.on_request(
        &String::from("mallory.near"),
        String::from("req-1"),
        &request_payload("alice"),
        PrepaidFee::Near { amount: 5 },
    );
    assert_eq!(r.err(), Some(BridgeError::Forbidden));
}

#[test]
fn on_request_malformed_payload_is_rejected() {
    let mut bridge = fresh_bridge();
    let r = bridge.on_request(
        &String::from(HUB),
        String::from("req-1"),
        &String::from("{\"wrong\":\"shape\"}"),
        PrepaidFee::Near { amount: 5 },
    );
    assert_eq!(r.err(), Some(BridgeError::InvalidPayload));
}

#[test]
fn submit_unknown_request_fails_not_found() {
    let mut bridge = fresh_bridge();
    let r = bridge.submit(
        &String::from("verifier.near"),
        &String::from("req-404"),
        verdict("alice", true),
        9,
    );
    assert_eq!(r.err(), Some(BridgeError::NotFound));
}

#[test]
fn submit_account_mismatch_fails_and_mutates_nothing() {
    let mut bridge = bridge_with_request("alice", PrepaidFee::Near { amount: 5 });
    let r = bridge.submit(
        &String::from("verifier.near"),
        &String::from("req-1"),
        verdict("bob", true),
        9,
    );
    assert_eq!(r.err(), Some(BridgeError::Mismatch));
    assert!(bridge.get_near_account(&String::from("42")).is_none());
    assert!(!bridge.is_connected(&String::from("bob")));
    assert!(!bridge.is_connected(&String::from("alice")));
}

#[test]
fn submit_unsupported_fee_token_fails() {
    let mut bridge = bridge_with_request("alice", PrepaidFee::OtherToken);
    let r = bridge.submit(
        &String::from("verifier.near"),
        &String::from("req-1"),
        verdict("alice", true),
        9,
    );
    assert_eq!(r.err(), Some(BridgeError::UnsupportedFeeToken));
    assert!(!bridge.is_connected(&String::from("alice")));
}

#[test]
fn submit_verified_links_both_directions_consistently() {
    let mut bridge = bridge_with_request("alice", PrepaidFee::Near { amount: 5 });
    let st = bridge
        .submit(
            &String::from("verifier.near"),
            &String::from("req-1"),
            verdict("alice", true),
            77,
        )
        .expect("submit should settle");
    assert_eq!(st.refund_receiver, "verifier.near");
    assert_eq!(st.refund_yocto, 5);
    assert_eq!(st.response_receiver, HUB);
    assert_eq!(st.request_id, "req-1");
    assert_eq!(
        st.response.response_data,
        "{\"twitter_id\":\"42\",\"twitter_username\":\"alice_tw\",\"near_account_id\":\"alice\",\"verified\":true}"
    );
    // The two index halves agree on the pair.
    let account = bridge
        .get_near_account(&String::from("42"))
        .expect("handle side should be linked");
    assert_eq!(account, "alice");
    let info = bridge
        .get_twitter_info(&String::from("alice"))
        .expect("account side should be linked");
    assert_eq!(info.twitter_id, "42");
    assert_eq!(info.twitter_username, "alice_tw");
    assert_eq!(info.near_account_id, "alice");
    assert_eq!(info.timestamp, 77);
    assert!(bridge.is_connected(&String::from("alice")));
}

#[test]
fn submit_unverified_refunds_and_replies_but_links_nothing() {
    let mut bridge = bridge_with_request("alice", PrepaidFee::Near { amount: 5 });
    let st = bridge
        .submit(
            &String::from("verifier.near"),
            &String::from("req-1"),
            verdict("alice", false),
            9,
        )
        .expect("submit should settle even when unverified");
    assert_eq!(st.refund_yocto, 5);
    assert_eq!(st.refund_receiver, "verifier.near");
    assert_eq!(
        st.response.response_data,
        "{\"twitter_id\":\"42\",\"twitter_username\":\"alice_tw\",\"near_account_id\":\"alice\",\"verified\":false}"
    );
    assert!(bridge.get_near_account(&String::from("42")).is_none());
    assert!(!bridge.is_connected(&String::from("alice")));
    assert!(bridge.get_twitter_info(&String::from("alice")).is_none());
}

#[test]
fn submit_replays_settle_again() {
    // The stored request is not consumed: a second submission with the same
    // request identifier refunds and overwrites the index again.
    let mut bridge = bridge_with_request("alice", PrepaidFee::Near { amount: 5 });
    let first = bridge.submit(
        &String::from("verifier.near"),
        &String::from("req-1"),
        verdict("alice", true),
        1,
    );
    assert!(first.is_ok());
    let second = bridge.submit(
        &String::from("other.near"),
        &String::from("req-1"),
        verdict("alice", true),
        2,
    );
    let st = second.expect("replay settles a second time");
    assert_eq!(st.refund_receiver, "other.near");
    assert_eq!(st.refund_yocto, 5);
    let info = bridge.get_twitter_info(&String::from("alice")).unwrap();
    assert_eq!(info.timestamp, 2);
}
