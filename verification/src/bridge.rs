//! The producer-side contract: accepts inbound requests from the hub,
//! accepts the verifier's submitted verdict, applies it to the bidirectional
//! link index, refunds escrow, and replies to the hub.

use vstd::prelude::*;
use vstd::hash_map::StringHashMap;
use crate::codec;
use crate::OracleResponse;
use crate::PrepaidFee;

verus! {

/// The inner request payload carried through the hub to this producer.
#[derive(Debug)]
pub struct TwitterRequest {
    pub oauth_token: String,
    pub near_account_id: String,
}

/// The verifier's verdict for one request.
#[derive(Debug)]
pub struct TwitterVerification {
    pub twitter_id: String,
    pub twitter_username: String,
    pub near_account_id: String,
    pub verified: bool,
}

/// The durable, queryable proof record for one linked account.
#[derive(Debug)]
pub struct TwitterLinkage {
    pub twitter_id: String,
    pub twitter_username: String,
    pub near_account_id: String,
    pub timestamp: u64,
}

impl TwitterLinkage {
    /// An owned copy with the same fields.
    pub fn duplicate(&self) -> (r: Self)
        ensures
            r == *self,
    {
        TwitterLinkage {
            twitter_id: self.twitter_id.clone(),
            twitter_username: self.twitter_username.clone(),
            near_account_id: self.near_account_id.clone(),
            timestamp: self.timestamp,
        }
    }
}

/// Why a bridge call aborted; the triggering call changes nothing.
#[derive(Clone, Copy, Debug, PartialEq, Eq, Structural)]
pub enum BridgeError {
    /// Only the configured hub account may deliver requests.
    Forbidden,
    /// The inbound request payload is not a well-formed request.
    InvalidPayload,
    /// The request identifier names no stored request.
    NotFound,
    /// The verdict's declared account differs from the stored request's.
    Mismatch,
    /// The escrowed fee is not in the native token; settlement cannot proceed.
    UnsupportedFeeToken,
}

/// Everything a successful settlement instructs the surrounding runtime to
/// do: refund the escrow to the submitter and reply to the hub.
#[derive(Debug)]
pub struct Settlement {
    pub refund_receiver: String,
    pub refund_yocto: u128,
    pub response_receiver: String,
    pub request_id: String,
    pub response: OracleResponse,
}

/// The wire shape of the inbound request payload.
pub open spec fn request_payload(oauth_token: Seq<char>, near_account_id: Seq<char>) -> Seq<char> {
    codec::two_member_object("oauth_token"@, oauth_token, "near_account_id"@, near_account_id)
}

/// The wire shape of the verdict this producer reports back.
pub open spec fn verdict_payload(v: TwitterVerification) -> Seq<char> {
    codec::verification_object(
        v.twitter_id@,
        v.twitter_username@,
        v.near_account_id@,
        v.verified,
    )
}

/// The producer contract state.
pub struct Contract {
    pub oracle_contract: String,
    pub requests: StringHashMap<(TwitterRequest, PrepaidFee)>,
    pub twitter_to_near: StringHashMap<String>,
    pub near_to_twitter: StringHashMap<TwitterLinkage>,
}

impl Contract {
    /// A fresh bridge that accepts requests only from the given hub account.
    pub fn new(oracle_contract: String) -> (r: Self)
        ensures
            r.oracle_contract@ == oracle_contract@,
            r.requests@ == Map::<Seq<char>, (TwitterRequest, PrepaidFee)>::empty(),
            r.twitter_to_near@ == Map::<Seq<char>, String>::empty(),
            r.near_to_twitter@ == Map::<Seq<char>, TwitterLinkage>::empty(),
    {
        Contract {
            oracle_contract,
            requests: StringHashMap::new(),
            twitter_to_near: StringHashMap::new(),
            near_to_twitter: StringHashMap::new(),
        }
    }

    /// The hub's notification of a new request: checks the caller, parses
    /// the payload, and stores the request with its escrowed fee.
    pub fn on_request(
        &mut self,
        caller: &String,
        request_id: String,
        request_data: &String,
        prepaid_fee: PrepaidFee,
    ) -> (r: Result<(), BridgeError>)
        ensures
            match r {
                Ok(()) => caller@ == old(self).oracle_contract@ && (exists|
                    t: Seq<char>,
                    n: Seq<char>,
                |
                    {
                        &&& codec::wf_text(t)
                        &&& codec::wf_text(n)
                        &&& request_data@ == request_payload(t, n)
                        &&& final(self).requests@.contains_key(request_id@)
                        &&& final(self).requests@[request_id@].0.oauth_token@ == t
                        &&& final(self).requests@[request_id@].0.near_account_id@ == n
                        &&& final(self).requests@[request_id@].1 == prepaid_fee
                        &&& final(self).requests@ == old(self).requests@.insert(
                            request_id@,
                            final(self).requests@[request_id@],
                        )
                    }),
                Err(BridgeError::Forbidden) => caller@ != old(self).oracle_contract@ && *final(self)
                    == *old(self),
                Err(BridgeError::InvalidPayload) => caller@ == old(self).oracle_contract@ && *final(self) == *old(self) && (forall|t: Seq<char>, n: Seq<char>|
                    !(codec::wf_text(t) && codec::wf_text(n) && request_data@ == request_payload(
                        t,
                        n,
                    ))),
                Err(_) => false,
            },
            final(self).oracle_contract == old(self).oracle_contract,
            final(self).twitter_to_near == old(self).twitter_to_near,
            final(self).near_to_twitter == old(self).near_to_twitter,
    {
        if !(*caller == self.oracle_contract) {
            return Err(BridgeError::Forbidden);
        }
        let parsed = match codec::parse_two_member(
            request_data.as_str(),
            "oauth_token",
            "near_account_id",
        ) {
            None => {
                return Err(BridgeError::InvalidPayload);
            },
            Some(p) => p,
        };
        let (oauth_token, near_account_id) = parsed;
        let ghost t = oauth_token@;
        let ghost n = near_account_id@;
        let request = TwitterRequest { oauth_token, near_account_id };
        let ghost rid = request_id@;
        self.requests.insert(request_id, (request, prepaid_fee));
        proof {
            assert(request_data@ == request_payload(t, n));
            assert(self.requests@[rid].0.oauth_token@ == t);
            assert(self.requests@ == old(self).requests@.insert(rid, self.requests@[rid]));
        }
        Ok(())
    }

    /// Settles the stored request with the given verdict.
    ///
    /// On success the escrowed fee goes back to the caller whatever the
    /// verdict says, the verdict travels back to the hub, and a positive
    /// verdict writes both halves of the link index, overwriting any prior
    /// entry under either key. The stored request stays: a later call with
    /// the same identifier settles again.
    pub fn submit(
        &mut self,
        caller: &String,
        request_id: &String,
        verification: TwitterVerification,
        now: u64,
    ) -> (r: Result<Settlement, BridgeError>)
        ensures
            match r {
                Ok(st) => {
                    &&& old(self).requests@.contains_key(request_id@)
                    &&& old(self).requests@[request_id@].0.near_account_id@
                        == verification.near_account_id@
                    &&& (old(self).requests@[request_id@].1 matches PrepaidFee::Near { amount }
                        && st.refund_yocto == amount)
                    &&& st.refund_receiver@ == caller@
                    &&& st.response_receiver@ == old(self).oracle_contract@
                    &&& st.request_id@ == request_id@
                    &&& st.response.refund_amount is None
                    &&& st.response.response_data@ == verdict_payload(verification)
                    &&& final(self).requests@ == old(self).requests@
                    &&& if verification.verified {
                        {
                            &&& final(self).twitter_to_near@ == old(self).twitter_to_near@.insert(
                                verification.twitter_id@,
                                verification.near_account_id,
                            )
                            &&& final(self).near_to_twitter@.contains_key(
                                verification.near_account_id@,
                            )
                            &&& (final(self).near_to_twitter@[verification.near_account_id@]
                                == (TwitterLinkage {
                                twitter_id: verification.twitter_id,
                                twitter_username: verification.twitter_username,
                                near_account_id: verification.near_account_id,
                                timestamp: now,
                            }))
                            &&& final(self).near_to_twitter@ == old(self).near_to_twitter@.insert(
                                verification.near_account_id@,
                                final(self).near_to_twitter@[verification.near_account_id@],
                            )
                            &&& final(self).twitter_to_near@[verification.twitter_id@]@
                                == verification.near_account_id@
                            &&& final(self).near_to_twitter@[verification.near_account_id@].twitter_id@
                                == verification.twitter_id@
                        }
                    } else {
                        final(self).twitter_to_near == old(self).twitter_to_near && final(self).near_to_twitter == old(self).near_to_twitter
                    }
                },
                Err(BridgeError::NotFound) => !old(self).requests@.contains_key(request_id@)
                    && *final(self) == *old(self),
                Err(BridgeError::Mismatch) => old(self).requests@.contains_key(request_id@) && old(self).requests@[request_id@].0.near_account_id@ != verification.near_account_id@
                    && *final(self) == *old(self),
                Err(BridgeError::UnsupportedFeeToken) => old(self).requests@.contains_key(
                    request_id@,
                ) && old(self).requests@[request_id@].0.near_account_id@
                    == verification.near_account_id@ && !(old(self).requests@[request_id@].1
                    is Near) && *final(self) == *old(self),
                Err(_) => false,
            },
            final(self).oracle_contract == old(self).oracle_contract,
    {
        let stored = match self.requests.get(request_id.as_str()) {
            None => {
                return Err(BridgeError::NotFound);
            },
            Some(entry) => entry,
        };
        if !(stored.0.near_account_id == verification.near_account_id) {
            return Err(BridgeError::Mismatch);
        }
        let refund_yocto = match &stored.1 {
            PrepaidFee::Near { amount } => *amount,
            PrepaidFee::OtherToken => {
                return Err(BridgeError::UnsupportedFeeToken);
            },
        };
        let response_data = codec::encode_verification_object(
            verification.twitter_id.as_str(),
            verification.twitter_username.as_str(),
            verification.near_account_id.as_str(),
            verification.verified,
        );
        if verification.verified {
            let linkage = TwitterLinkage {
                twitter_id: verification.twitter_id.clone(),
                twitter_username: verification.twitter_username.clone(),
                near_account_id: verification.near_account_id.clone(),
                timestamp: now,
            };
            self.twitter_to_near.insert(
                verification.twitter_id.clone(),
                verification.near_account_id.clone(),
            );
            self.near_to_twitter.insert(verification.near_account_id.clone(), linkage);
        }
        Ok(
            Settlement {
                refund_receiver: caller.clone(),
                refund_yocto,
                response_receiver: self.oracle_contract.clone(),
                request_id: request_id.clone(),
                response: OracleResponse { response_data, refund_amount: None },
            },
        )
    }

    /// The account linked to a Twitter id, if any.
    pub fn get_near_account(&self, twitter_id: &String) -> (r: Option<String>)
        ensures
            match r {
                Some(a) => self.twitter_to_near@.contains_key(twitter_id@) && a
                    == self.twitter_to_near@[twitter_id@],
                None => !self.twitter_to_near@.contains_key(twitter_id@),
            },
    {
        match self.twitter_to_near.get(twitter_id.as_str()) {
            None => None,
            Some(a) => Some(a.clone()),
        }
    }

    /// Whether an account has a stored link.
    pub fn is_connected(&self, near_account_id: &String) -> (r: bool)
        ensures
            r == self.near_to_twitter@.contains_key(near_account_id@),
    {
        self.near_to_twitter.contains_key(near_account_id.as_str())
    }

    /// The stored link record for an account, if any.
    pub fn get_twitter_info(&self, near_account_id: &String) -> (r: Option<TwitterLinkage>)
        ensures
            match r {
                Some(l) => self.near_to_twitter@.contains_key(near_account_id@) && l
                    == self.near_to_twitter@[near_account_id@],
                None => !self.near_to_twitter@.contains_key(near_account_id@),
            },
    {
        match self.near_to_twitter.get(near_account_id.as_str()) {
            None => None,
            Some(l) => Some(l.duplicate()),
        }
    }
}

} // verus!
