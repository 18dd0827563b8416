//! Rejections. Every rejection has its own variant, and every variant belongs to
//! one class of the taxonomy that callers branch on.

use vstd::prelude::*;

verus! {

/// The classes of rejection.
#[derive(Clone, Copy, Debug, PartialEq, Eq, Structural)]
pub enum ErrorKind {
    /// The request collides with something already recorded.
    Conflict,
    /// A pair, pool, chain or escrow entry does not resolve.
    NotFound,
    /// The request itself is malformed or not permitted.
    Validation,
    /// A checked arithmetic operation left its range.
    Arithmetic,
    /// A collaborator outside this library failed or misreported.
    External,
}

/// Why a request or a query was rejected.
#[derive(Clone, Copy, Debug, PartialEq, Eq, Structural)]
pub enum ContractError {
    /// A request with this requester and transaction id is already pending.
    TxAlreadyExist,
    /// The pair is already registered.
    PoolAlreadyExists,
    /// The pair is not registered.
    PoolDoesNotExist,
    /// A hop of the route has no registered pool.
    UnregisteredPool,
    /// The chain is not registered.
    ChainNotFound,
    /// The token has no escrow on this chain.
    EscrowDoesNotExist,
    /// No channel to the hub has been set.
    ChannelNotFound,
    /// The local chain's own identifier has not been set.
    StateNotFound,
    /// The route has no hop.
    EmptyRoute,
    /// The first hop does not start at the declared input asset.
    AssetInMismatch,
    /// The last hop does not end at the declared output asset.
    AssetOutMismatch,
    /// An amount that must be positive is zero.
    ZeroAssetAmount,
    /// The slippage tolerance is outside 1..=100.
    InvalidSlippageTolerance,
    /// The partner fee is above the ceiling.
    InvalidPartnerFee,
    /// The timeout is outside the allowed window.
    InvalidTimeout,
    /// The two tokens of a pair are the same.
    DuplicateTokens,
    /// The token identifier is empty or too long.
    InvalidTokenID,
    /// The chain identifier does not pass validation.
    InvalidChainId,
    /// An address is too long to stand at the head of a key, or does not
    /// pass the chain's check of addresses.
    InvalidAddress,
    /// The escrow does not accept this denomination.
    UnsupportedDenomination,
    /// No funds, or too few, were attached for a native token.
    InsufficientDeposit,
    /// None of the attached funds has the native token's denomination.
    DenomNotFound,
    /// The attached funds are less than the amount to swap.
    InsufficientFunds,
    /// The caller may not perform this operation.
    Unauthorized,
    /// A swap identifier's counter is not a number.
    InvalidSwapId,
    /// The operation is not available.
    NotImplemented,
    /// An amount left the range of 128 bits.
    Overflow,
    /// The pricing collaborator reported another output asset than the declared one.
    InvalidAssetOut,
    /// A collaborator could not be reached or answered with an error.
    CollaboratorFailed,
}

impl ContractError {
    /// The class of this rejection.
    pub open spec fn spec_kind(self) -> ErrorKind {
        match self {
            ContractError::TxAlreadyExist | ContractError::PoolAlreadyExists => ErrorKind::Conflict,
            ContractError::PoolDoesNotExist
            | ContractError::UnregisteredPool
            | ContractError::ChainNotFound
            | ContractError::EscrowDoesNotExist
            | ContractError::ChannelNotFound
            | ContractError::StateNotFound => ErrorKind::NotFound,
            ContractError::Overflow => ErrorKind::Arithmetic,
            ContractError::InvalidAssetOut | ContractError::CollaboratorFailed => ErrorKind::External,
            _ => ErrorKind::Validation,
        }
    }

    /// The class of this rejection.
    #[verifier::when_used_as_spec(spec_kind)]
    pub fn kind(self) -> (k: ErrorKind)
        ensures
            k == self.spec_kind(),
    {
        match self {
            ContractError::TxAlreadyExist | ContractError::PoolAlreadyExists => ErrorKind::Conflict,
            ContractError::PoolDoesNotExist
            | ContractError::UnregisteredPool
            | ContractError::ChainNotFound
            | ContractError::EscrowDoesNotExist
            | ContractError::ChannelNotFound
            | ContractError::StateNotFound => ErrorKind::NotFound,
            ContractError::Overflow => ErrorKind::Arithmetic,
            ContractError::InvalidAssetOut | ContractError::CollaboratorFailed => ErrorKind::External,
            _ => ErrorKind::Validation,
        }
    }
}

} // verus!
