//! The consumer-side contract: issues linking attempts, forwards
//! verification requests to the hub, and stores confirmed links when the
//! asynchronous response arrives.

use vstd::prelude::*;
use vstd::hash_map::StringHashMap;
use crate::codec;
use crate::hexid;
use crate::OracleResponse;

verus! {

/// A linking attempt awaiting its oracle round trip.
#[derive(Debug)]
pub struct PendingLink {
    pub account_id: String,
    pub created_at: u64,
}

/// The request payload this consumer forwards to the hub.
#[derive(Debug)]
pub struct TwitterRequest {
    pub oauth_token: String,
    pub linking_id: String,
}

/// The verdict payload the consumer expects back from the oracle.
#[derive(Debug)]
pub struct TwitterVerification {
    pub handle: String,
    pub user_id: String,
}

impl TwitterVerification {
    /// An owned copy with the same fields.
    pub fn duplicate(&self) -> (r: Self)
        ensures
            r == *self,
    {
        TwitterVerification { handle: self.handle.clone(), user_id: self.user_id.clone() }
    }
}

/// Why a registry call aborted; the triggering call changes nothing.
#[derive(Clone, Copy, Debug, PartialEq, Eq, Structural)]
pub enum LinkError {
    /// The linking identifier was never issued or is no longer pending.
    NotFound,
    /// The caller is not the owner that began this linking attempt.
    Unauthorized,
    /// The oracle did not submit a response in time.
    NoResponse,
    /// The response payload is not a well-formed verdict.
    MalformedResponse,
    /// The handle echoed in the response names no pending link.
    PendingMissing,
}

/// A one-way request this contract hands to the hub, with a continuation
/// registered to run on the response.
#[derive(Debug)]
pub struct HubRequest {
    pub receiver: String,
    pub producer_id: String,
    pub request_data: String,
}

/// The wire shape of the request this consumer sends.
pub open spec fn request_payload(oauth_token: Seq<char>, linking_id: Seq<char>) -> Seq<char> {
    codec::two_member_object("oauth_token"@, oauth_token, "linking_id"@, linking_id)
}

/// The wire shape of the verdict this consumer reads back.
pub open spec fn response_payload(handle: Seq<char>, user_id: Seq<char>) -> Seq<char> {
    codec::two_member_object("handle"@, handle, "user_id"@, user_id)
}

/// Linking attempts begun with different randomness get different
/// identifiers: the identifier is the hex spelling of the first 16 seed
/// bytes, and that spelling is injective.
pub proof fn lemma_linking_ids_distinct(s1: Seq<u8>, s2: Seq<u8>)
    requires
        s1.len() >= 16,
        s2.len() >= 16,
        s1.take(16) != s2.take(16),
    ensures
        hexid::hex_of(s1.take(16)) != hexid::hex_of(s2.take(16)),
{
    if hexid::hex_of(s1.take(16)) == hexid::hex_of(s2.take(16)) {
        hexid::lemma_hex_of_injective(s1.take(16), s2.take(16));
    }
}

/// The consumer contract state.
pub struct Contract {
    pub oracle_contract: String,
    pub producer_id: String,
    pub pending_links: StringHashMap<PendingLink>,
    pub twitter_links: StringHashMap<TwitterVerification>,
}

impl Contract {
    /// A fresh registry pointed at the given hub and producer.
    pub fn new(oracle_contract: String, producer_id: String) -> (r: Self)
        ensures
            r.oracle_contract@ == oracle_contract@,
            r.producer_id@ == producer_id@,
            r.pending_links@ == Map::<Seq<char>, PendingLink>::empty(),
            r.twitter_links@ == Map::<Seq<char>, TwitterVerification>::empty(),
    {
        Contract {
            oracle_contract,
            producer_id,
            pending_links: StringHashMap::new(),
            twitter_links: StringHashMap::new(),
        }
    }

    /// The unguessable linking identifier for this attempt: the lowercase
    /// hex spelling of the first 16 bytes of fresh randomness.
    fn generate_unique_id(&self, random_seed: &Vec<u8>) -> (r: String)
        requires
            random_seed@.len() >= 16,
        ensures
            r@ == hexid::hex_of(random_seed@.take(16)),
            r@.len() == 32,
    {
        let mut prefix: Vec<u8> = Vec::new();
        let mut i: usize = 0;
        while i < 16
            invariant
                random_seed@.len() >= 16,
                i <= 16,
                prefix@ == random_seed@.take(i as int),
            decreases 16 - i,
        {
            prefix.push(random_seed[i]);
            i = i + 1;
            proof {
                assert(prefix@ =~= random_seed@.take(i as int));
            }
        }
        proof {
            hexid::lemma_hex_of_shape(prefix@);
        }
        hexid::hex_encode(&prefix)
    }

    /// Starts a linking attempt for `caller` at block time `now`, keyed by
    /// an identifier derived from the chain's randomness for this call.
    pub fn init_linking(&mut self, caller: String, now: u64, random_seed: &Vec<u8>) -> (id: String)
        requires
            random_seed@.len() >= 16,
        ensures
            id@ == hexid::hex_of(random_seed@.take(16)),
            id@.len() == 32,
            forall|i: int| 0 <= i < id@.len() ==> hexid::is_hex_digit(#[trigger] id@[i]),
            final(self).pending_links@ == old(self).pending_links@.insert(
                id@,
                (PendingLink { account_id: caller, created_at: now }),
            ),
            final(self).twitter_links == old(self).twitter_links,
            final(self).oracle_contract == old(self).oracle_contract,
            final(self).producer_id == old(self).producer_id,
    {
        let id = self.generate_unique_id(random_seed);
        proof {
            hexid::lemma_hex_of_shape(random_seed@.take(16));
        }
        self.pending_links.insert(id.clone(), PendingLink { account_id: caller, created_at: now });
        id
    }

    /// Checks that `linking_id` names a pending attempt owned by `caller`
    /// and builds the verification request to dispatch one-way to the hub.
    /// The hub processes it in a later, separate execution.
    pub fn verify_link(&self, caller: &String, linking_id: &String, oauth_token: &String) -> (r:
        Result<HubRequest, LinkError>)
        ensures
            match r {
                Ok(req) => {
                    &&& self.pending_links@.contains_key(linking_id@)
                    &&& self.pending_links@[linking_id@].account_id@ == caller@
                    &&& req.receiver@ == self.oracle_contract@
                    &&& req.producer_id@ == self.producer_id@
                    &&& req.request_data@ == request_payload(oauth_token@, linking_id@)
                },
                Err(LinkError::NotFound) => !self.pending_links@.contains_key(linking_id@),
                Err(LinkError::Unauthorized) => self.pending_links@.contains_key(linking_id@)
                    && self.pending_links@[linking_id@].account_id@ != caller@,
                Err(_) => false,
            },
    {
        let pending = match self.pending_links.get(linking_id.as_str()) {
            None => {
                return Err(LinkError::NotFound);
            },
            Some(p) => p,
        };
        if !(pending.account_id == *caller) {
            return Err(LinkError::Unauthorized);
        }
        let request = TwitterRequest {
            oauth_token: oauth_token.clone(),
            linking_id: linking_id.clone(),
        };
        let request_data = codec::encode_two_member(
            "oauth_token",
            request.oauth_token.as_str(),
            "linking_id",
            request.linking_id.as_str(),
        );
        Ok(
            HubRequest {
                receiver: self.oracle_contract.clone(),
                producer_id: self.producer_id.clone(),
                request_data,
            },
        )
    }

    /// The privileged continuation run on the oracle's response: looks up
    /// the pending link by the handle echoed in the response, stores the
    /// final link under the owning account, and removes the pending entry.
    pub fn on_response(&mut self, result: Option<OracleResponse>) -> (r: Result<(), LinkError>)
        ensures
            match r {
                Ok(()) => result matches Some(resp) && (exists|h: Seq<char>, u: Seq<char>|
                    {
                        &&& codec::wf_text(h)
                        &&& codec::wf_text(u)
                        &&& resp.response_data@ == response_payload(h, u)
                        &&& old(self).pending_links@.contains_key(h)
                        &&& final(self).pending_links@ == old(self).pending_links@.remove(h)
                        &&& {
                            let owner = old(self).pending_links@[h].account_id@;
                            &&& final(self).twitter_links@.contains_key(owner)
                            &&& final(self).twitter_links@[owner].handle@ == h
                            &&& final(self).twitter_links@[owner].user_id@ == u
                            &&& final(self).twitter_links@ == old(self).twitter_links@.insert(
                                owner,
                                final(self).twitter_links@[owner],
                            )
                        }
                    }),
                Err(LinkError::NoResponse) => result is None && *final(self) == *old(self),
                Err(LinkError::MalformedResponse) => result matches Some(resp) && *final(self) == *old(self) && (forall|h: Seq<char>, u: Seq<char>|
                    !(codec::wf_text(h) && codec::wf_text(u) && resp.response_data@
                        == response_payload(h, u))),
                Err(LinkError::PendingMissing) => result matches Some(resp) && *final(self) == *old(self) && (exists|h: Seq<char>, u: Seq<char>|
                    codec::wf_text(h) && codec::wf_text(u) && resp.response_data@
                        == response_payload(h, u) && !old(self).pending_links@.contains_key(h)),
                Err(_) => false,
            },
            final(self).oracle_contract == old(self).oracle_contract,
            final(self).producer_id == old(self).producer_id,
    {
        let response = match result {
            None => {
                return Err(LinkError::NoResponse);
            },
            Some(resp) => resp,
        };
        let parsed = match codec::parse_two_member(
            response.response_data.as_str(),
            "handle",
            "user_id",
        ) {
            None => {
                return Err(LinkError::MalformedResponse);
            },
            Some(p) => p,
        };
        let (handle, user_id) = parsed;
        let ghost h = handle@;
        let ghost u = user_id@;
        let owner = match self.pending_links.get(handle.as_str()) {
            None => {
                proof {
                    assert(response.response_data@ == response_payload(h, u));
                }
                return Err(LinkError::PendingMissing);
            },
            Some(pending) => pending.account_id.clone(),
        };
        let ghost owner_view = owner@;
        self.pending_links.remove(handle.as_str());
        let verification = TwitterVerification { handle, user_id };
        self.twitter_links.insert(owner, verification);
        proof {
            assert(response.response_data@ == response_payload(h, u));
            assert(self.twitter_links@[owner_view].handle@ == h);
            assert(self.twitter_links@ == old(self).twitter_links@.insert(
                owner_view,
                self.twitter_links@[owner_view],
            ));
        }
        Ok(())
    }

    /// The confirmed link for an account, if one has been stored.
    pub fn get_twitter_link(&self, account_id: &String) -> (r: Option<TwitterVerification>)
        ensures
            match r {
                Some(v) => self.twitter_links@.contains_key(account_id@) && v
                    == self.twitter_links@[account_id@],
                None => !self.twitter_links@.contains_key(account_id@),
            },
    {
        match self.twitter_links.get(account_id.as_str()) {
            None => None,
            Some(v) => Some(v.duplicate()),
        }
    }
}

} // verus!
