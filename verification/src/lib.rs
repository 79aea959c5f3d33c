//! A three-party identity-linking oracle: a consumer contract that issues
//! linking attempts and forwards verification requests to a routing hub, a
//! producer contract that consumes those requests and settles verdicts, and
//! the decision logic of an off-chain verifier worker with bounded retries.
//!
//! Each contract executes one call at a time, atomically; the parties are
//! connected only by opaque correlation identifiers carried over the hub.
//! Ambient chain context (caller identity, block time, randomness) enters
//! every operation as an explicit argument, so the logic here is deterministic.

pub mod bridge;
pub mod codec;
pub mod hexid;
pub mod node;
pub mod registry;

use vstd::prelude::*;

verus! {

/// A fee escrowed with an oracle request, by token kind.
///
/// Only the native-token variant can be settled; any other kind is a
/// fatal condition at settlement time.
#[derive(Clone, Copy, Debug, PartialEq, Eq, Structural)]
pub enum PrepaidFee {
    Near { amount: u128 },
    OtherToken,
}

/// A response travelling back through the hub to the consumer contract.
#[derive(Debug)]
pub struct OracleResponse {
    pub response_data: String,
    pub refund_amount: Option<u128>,
}

} // verus!
