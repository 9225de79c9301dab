//! Error taxonomy of the issuance core.
//!
//! Every operation returns success or exactly one of these error kinds;
//! an error aborts the whole in-flight request.

use vstd::prelude::*;

verus! {

/// Errors raised by the issuance path and its gates.
#[derive(Clone, Copy, Debug, PartialEq, Eq, Structural)]
pub enum RuggedError {
    /// User wallet is not verified as rugged.
    RuggedUserNotVerified,
    /// Destination wallet must not match the compromised address.
    InvalidDestination,
    /// Trait selection invalid.
    InvalidTraits,
    /// Unauthorized to perform this action.
    Unauthorized,
    /// Program is currently paused for maintenance or security reasons.
    ProgramPaused,
    /// Operation failed due to a duplicate NFT mint attempt.
    DuplicateNFTMint,
    /// The collection's maximum supply has been reached.
    MaxSupplyExceeded,
}

/// Errors raised by configuration changes and fee arithmetic.
#[derive(Clone, Copy, Debug, PartialEq, Eq, Structural)]
pub enum CustomError {
    /// Treasury and anti-scam fee percentages must sum to 100.
    InvalidFeeDistribution,
    /// The provided fee amount is too high.
    InvalidFeeAmount,
    /// The provided minimum payment is too low.
    InvalidMinimumPayment,
    /// Arithmetic operation resulted in overflow.
    ArithmeticOverflow,
    /// The requested operation cannot be performed when the program is paused.
    OperationNotAllowedWhenPaused,
}

/// The single terminal error kind a caller receives for a request.
#[derive(Clone, Copy, Debug, PartialEq, Eq, Structural)]
pub enum ProgramError {
    /// An issuance-path error.
    Rugged(RuggedError),
    /// A configuration or arithmetic error.
    Custom(CustomError),
    /// The configuration record already exists; it is created exactly once.
    AlreadyInitialized,
    /// An opaque failure of the external minting engine, surfaced unchanged.
    ExternalEngine(u32),
}

} // verus!
