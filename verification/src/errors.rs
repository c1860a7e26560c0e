//! The failure taxonomy of the lifecycle operations.

use vstd::prelude::*;

verus! {

/// Every way a lifecycle operation can fail. Each error is terminal for
/// the call: the core performs no retries, and an operation that fails
/// leaves the stored state exactly as it found it (except that a payout
/// already recorded as claimed stays claimed when only the outbound
/// transfer fails).
#[derive(Clone, Copy, Debug, PartialEq, Eq, Structural)]
pub enum PalomitoError {
    /// The caller is not the contract owner.
    NotOwner,
    /// The policy exists but is no longer active.
    PolicyNotActive,
    /// The policy was already paid out.
    PolicyAlreadyClaimed,
    /// No policy is stored under the given identifier.
    PolicyNotFound,
    /// Pulling the premium from the buyer failed (allowance or balance).
    IncorrectPremium,
    /// The contract's stablecoin balance cannot cover the payout.
    InsufficientContractUSDC,
    /// The reentrancy guard is already held.
    Reentrancy,
    /// The requested expiration does not lie in the future.
    ExpirationInPast,
    /// A ticket price of zero buys no coverage.
    InvalidTicketPrice,
    /// The outbound payout transfer failed.
    USDCTransferFailed,
    /// The policy's expiration has not passed yet.
    PolicyNotExpired,
}

} // verus!
