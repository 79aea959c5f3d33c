//! The decision logic of the off-chain verifier worker: which observed
//! events to process, how the bounded identity-provider retry concludes,
//! and when a failed on-chain submission may be retried.
//!
//! The surrounding runtime performs the suspending work (the HTTP call,
//! the pause between attempts, the transaction submission) and feeds the
//! outcomes back into these functions.

use vstd::prelude::*;
use crate::codec;
use crate::bridge;
pub use crate::bridge::TwitterRequest;
pub use crate::bridge::TwitterVerification;

verus! {

/// One oracle request event observed on the filtered feed.
#[derive(Debug)]
pub struct OracleRequestEvent {
    pub producer_id: String,
    pub consumer_id: String,
    pub request_id: String,
    pub request_data: String,
}

/// The identity provider's answer for a credential that checked out.
#[derive(Debug)]
pub struct TwitterApiResponse {
    pub id: String,
    pub username: String,
}

/// What to do with one observed event.
#[derive(Debug)]
pub enum EventDisposition {
    /// The event names another producer; ignore it.
    NotMine,
    /// The inner payload is not a well-formed request; drop the event.
    Malformed,
    /// A well-formed request addressed to this producer.
    Process(bridge::TwitterRequest),
}

/// Decides whether an observed event is this worker's to process, and
/// parses the inner request payload if so.
pub fn classify_event(event: &OracleRequestEvent, own_producer: &String) -> (r: EventDisposition)
    ensures
        match r {
            EventDisposition::NotMine => event.producer_id@ != own_producer@,
            EventDisposition::Malformed => event.producer_id@ == own_producer@ && (forall|
                t: Seq<char>,
                n: Seq<char>,
            |
                !(codec::wf_text(t) && codec::wf_text(n) && event.request_data@
                    == bridge::request_payload(t, n))),
            EventDisposition::Process(req) => event.producer_id@ == own_producer@
                && codec::wf_text(req.oauth_token@) && codec::wf_text(req.near_account_id@)
                && event.request_data@ == bridge::request_payload(
                req.oauth_token@,
                req.near_account_id@,
            ),
        },
{
    if !(event.producer_id == *own_producer) {
        return EventDisposition::NotMine;
    }
    match codec::parse_two_member(event.request_data.as_str(), "oauth_token", "near_account_id") {
        None => EventDisposition::Malformed,
        Some(p) => {
            let (oauth_token, near_account_id) = p;
            EventDisposition::Process(bridge::TwitterRequest { oauth_token, near_account_id })
        },
    }
}

/// How many identity-provider attempts one request may use.
pub const MAX_VERIFY_ATTEMPTS: u8 = 3;

/// How many submission attempts one verdict may use.
pub const MAX_SUBMIT_ATTEMPTS: u8 = 5;

/// What follows one identity-provider attempt.
#[derive(Debug)]
pub enum AttemptStep {
    /// The verification run is over, with this verdict.
    Concluded(bridge::TwitterVerification),
    /// The attempt failed and budget remains: pause, then try again.
    RetryAfterPause,
}

/// Decides what follows the `attempts_made`-th identity-provider attempt:
/// a success concludes verified at once; a failure either retries after a
/// pause or, once the budget is spent, concludes unverified — a normal
/// terminal result, not a propagated failure.
pub fn process_attempt(
    near_account_id: &String,
    attempts_made: u8,
    outcome: Option<&TwitterApiResponse>,
) -> (r: AttemptStep)
    requires
        1 <= attempts_made <= MAX_VERIFY_ATTEMPTS,
    ensures
        match r {
            AttemptStep::Concluded(v) => v.near_account_id@ == near_account_id@ && (match outcome {
                Some(u) => v.verified && v.twitter_id@ == u.id@ && v.twitter_username@
                    == u.username@,
                None => !v.verified && attempts_made == MAX_VERIFY_ATTEMPTS && v.twitter_id@.len()
                    == 0 && v.twitter_username@.len() == 0,
            }),
            AttemptStep::RetryAfterPause => outcome is None && attempts_made < MAX_VERIFY_ATTEMPTS,
        },
{
    match outcome {
        Some(user) => AttemptStep::Concluded(
            bridge::TwitterVerification {
                twitter_id: user.id.clone(),
                twitter_username: user.username.clone(),
                near_account_id: near_account_id.clone(),
                verified: true,
            },
        ),
        None => {
            if attempts_made >= MAX_VERIFY_ATTEMPTS {
                AttemptStep::Concluded(
                    bridge::TwitterVerification {
                        twitter_id: String::new(),
                        twitter_username: String::new(),
                        near_account_id: near_account_id.clone(),
                        verified: false,
                    },
                )
            } else {
                AttemptStep::RetryAfterPause
            }
        },
    }
}

/// Runs the attempt policy over the outcomes the identity provider would
/// give on each try: exactly up to three attempts, short-circuiting on the
/// first success; three failures conclude unverified.
pub fn drive_attempts(near_account_id: &String, outcomes: &Vec<Option<TwitterApiResponse>>) -> (r:
    (bridge::TwitterVerification, u8))
    requires
        outcomes@.len() >= MAX_VERIFY_ATTEMPTS,
    ensures
        1 <= r.1 <= MAX_VERIFY_ATTEMPTS,
        forall|i: int| 0 <= i < r.1 - 1 ==> outcomes@[i] is None,
        r.0.near_account_id@ == near_account_id@,
        r.0.verified == (outcomes@[r.1 - 1] is Some),
        outcomes@[r.1 - 1] matches Some(u) ==> r.0.twitter_id@ == u.id@ && r.0.twitter_username@
            == u.username@,
        outcomes@[r.1 - 1] is None ==> r.1 == MAX_VERIFY_ATTEMPTS && r.0.twitter_id@.len() == 0
            && r.0.twitter_username@.len() == 0,
{
    let mut attempts: u8 = 0;
    loop
        invariant
            outcomes@.len() >= MAX_VERIFY_ATTEMPTS,
            0 <= attempts < MAX_VERIFY_ATTEMPTS,
            forall|i: int| 0 <= i < attempts ==> outcomes@[i] is None,
        decreases MAX_VERIFY_ATTEMPTS - attempts,
    {
        attempts = attempts + 1;
        let outcome = match &outcomes[(attempts - 1) as usize] {
            None => None,
            Some(u) => Some(u),
        };
        match process_attempt(near_account_id, attempts, outcome) {
            AttemptStep::Concluded(v) => {
                return (v, attempts);
            },
            AttemptStep::RetryAfterPause => {},
        }
    }
}

/// Decides whether a failed on-chain submission may be tried again within
/// the transaction retry budget.
pub fn may_retry_submission(attempts_made: u8, succeeded: bool) -> (r: bool)
    ensures
        r == (!succeeded && attempts_made < MAX_SUBMIT_ATTEMPTS),
{
    !succeeded && attempts_made < MAX_SUBMIT_ATTEMPTS
}

} // verus!
