use vstd::prelude::*;

verus! {

/// Why an entry point refused a call. Every variant ends the transaction
/// that the call belongs to, with no change of state.
#[derive(Clone, Copy, Debug, PartialEq, Eq, Structural)]
pub enum Error {
    /// The user holds fewer staked-asset tokens than the call wants to lock.
    InsufficientBalance,
    /// The call wants to redeem more than the position holds.
    InsufficientStake,
    /// The token addresses have not been configured yet.
    NotInitialized,
    /// The authorization subsystem did not accept the caller as the user.
    Unauthorized,
    /// The amount is zero or negative.
    InvalidAmount,
    /// A call to a token contract failed.
    ExternalCallFailed,
    /// The reward rate lies outside `0..=MAX_RATE`.
    InvalidRate,
    /// A result does not fit its integer type: the ledger clock lies before
    /// the position's last update, or a reward or a position would exceed
    /// the 128-bit range.
    Overflow,
}

} // verus!
