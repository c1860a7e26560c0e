//! Settlement core of a parametric flight-insurance product.
//!
//! Users buy coverage by paying a premium in a stablecoin; a trusted
//! verifier later triggers the payout or lets the policy lapse. The
//! library holds the policy lifecycle state machine — purchase, claim
//! verification and payout, expiration — together with the reentrancy
//! and access-control discipline that keeps those transitions safe
//! while an outbound token call is in flight.
//!
//! The stablecoin gateway itself is an external collaborator: the
//! lifecycle operations validate and record state, and hand the host a
//! description of the token call to perform; the host reports the
//! outcome back through the matching completion function.

pub mod contract;
pub mod errors;
pub mod events;
pub mod laws;
pub mod policy;
pub mod premium;
pub mod store;
