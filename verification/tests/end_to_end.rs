use twitter_oracle::bridge;
use twitter_oracle::codec::{encode_two_member, encode_verification_object, parse_two_member};
use twitter_oracle::node::{classify_event, drive_attempts, EventDisposition, OracleRequestEvent,
    TwitterApiResponse};
use twitter_oracle::registry;
use twitter_oracle::PrepaidFee;

#[test]
fn payload_codec_round_trips() {
    let encoded = encode_two_member("oauth_token", "tok-1", "linking_id", "abc123");
    assert_eq!(encoded, "{\"oauth_token\":\"tok-1\",\"linking_id\":\"abc123\"}");
    let (v1, v2) = parse_two_member(&encoded, "oauth_token", "linking_id")
        .expect("the canonical form parses");
    assert_eq!(v1, "tok-1");
    assert_eq!(v2, "abc123");
}

#[test]
fn parser_rejects_near_misses() {
    assert!(parse_two_member("", "a", "b").is_none());
    assert!(parse_two_member("{\"a\":\"1\",\"b\":\"2\"", "a", "b").is_none());
    assert!(parse_two_member("{\"a\":\"1\",\"c\":\"2\"}", "a", "b").is_none());
    assert!(parse_two_member("{\"a\":\"1\",\"b\":\"2\"}x", "a", "b").is_none());
    assert!(parse_two_member("{\"a\":\"\\n\",\"b\":\"2\"}", "a", "b").is_none());
}

#[test]
fn verdict_encoding_is_exact() {
    assert_eq!(
        encode_verification_object("1", "u", "acct", true),
        "{\"twitter_id\":\"1\",\"twitter_username\":\"u\",\"near_account_id\":\"acct\",\"verified\":true}"
    );
    assert_eq!(
        encode_verification_object("", "", "acct", false),
        "{\"twitter_id\":\"\",\"twitter_username\":\"\",\"near_account_id\":\"acct\",\"verified\":false}"
    );
}

#[test]
fn alice_links_her_account_end_to_end() {
    // Registry side: alice starts a linking attempt and dispatches the
    // verification request for it.
    let mut reg = registry::Contract::new(
        String::from("oracle.near"),
        String::from("producer.near"),
    );
    let seed: Vec<u8> = vec![
        0xde, 0xad, 0xbe, 0xef, 0xca, 0xfe, 0xfe, 0xed, 0x01, 0x23, 0x45, 0x67, 0x89, 0xab,
        0xcd, 0xef, 0, 0, 0, 0, 0, 0, 0, 0, 0, 0, 0, 0, 0, 0, 0, 0,
    ];
    let id = reg.init_linking(String::from("alice"), 5, &seed);
    assert_eq!(id, "deadbeefcafefeed0123456789abcdef");
    let hub_request = reg
        .verify_link(&String::from("alice"), &id, &String::from("token"))
        .expect("alice owns the attempt");
    assert_eq!(hub_request.receiver, "oracle.near");

    // Producer side: the hub forwards a request for alice, escrowing a fee.
    let mut bridge = bridge::Contract::new(String::from("oracle.near"));
    bridge
        .on_request(
            &String::from("oracle.near"),
            String::from("req-1"),
            &String::from("{\"oauth_token\":\"token\",\"near_account_id\":\"alice\"}"),
            PrepaidFee::Near { amount: 100 },
        )
        .expect("the bridge records a pending request for alice");

    // Worker side: the event is for this producer; the identity provider
    // answers on the first attempt.
    let ev = OracleRequestEvent {
        producer_id: String::from("producer.near"),
        consumer_id: String::from("consumer.near"),
        request_id: String::from("req-1"),
        request_data: String::from("{\"oauth_token\":\"token\",\"near_account_id\":\"alice\"}"),
    };
    let request = match classify_event(&ev, &String::from("producer.near")) {
        EventDisposition::Process(req) => req,
        other => panic!("the event is this worker's to process, got {other:?}"),
    };
    let outcomes = vec![
        Some(TwitterApiResponse { id: String::from("42"), username: String::from("alice_tw") }),
        None,
        None,
    ];
    let (verification, used) = drive_attempts(&request.near_account_id, &outcomes);
    assert_eq!(used, 1);
    assert!(verification.verified);

    // Settlement: the verdict is submitted on-chain.
    let settlement = bridge
        .submit(&String::from("worker.near"), &ev.request_id, verification, 1234)
        .expect("the verdict settles");
    assert_eq!(settlement.refund_yocto, 100);

    let info = bridge
        .get_twitter_info(&String::from("alice"))
        .expect("alice is linked afterwards");
    assert_eq!(info.twitter_id, "42");
    assert_eq!(info.twitter_username, "alice_tw");
    assert_eq!(info.near_account_id, "alice");
    assert_eq!(info.timestamp, 1234);
}
