use vstd::prelude::*;

verus! {

/// Every way an operation on the streaming ledger can fail.
///
/// All errors are expected, recoverable-by-caller outcomes: an operation
/// returns the first failing precondition and leaves the ledger untouched.
#[derive(Clone, Copy, Debug, PartialEq, Eq, Structural)]
pub enum StreamError {
    /// The protocol configuration has already been created.
    AlreadyInitialized,
    /// The protocol configuration does not exist yet.
    NotInitialized,
    /// The caller is not the configured admin.
    NotAdmin,
    /// The requested fee rate exceeds the allowed maximum.
    InvalidFeeRate,
    /// A monetary amount was not strictly positive, or nothing is claimable.
    InvalidAmount,
    /// A stream duration of zero was supplied.
    InvalidDuration,
    /// The supplied token address failed the token-capability probe.
    InvalidTokenAddress,
    /// No stream exists with the given identifier.
    StreamNotFound,
    /// The caller is not the party the operation requires.
    Unauthorized,
    /// The stream has been cancelled or fully drained.
    StreamInactive,
}

} // verus!
