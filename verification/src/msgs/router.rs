//! Messages of the router at the hub.

use vstd::prelude::*;
use crate::chain::ChainUid;
use crate::chain::CrossChainUserWithLimit;
use crate::swap::NextSwapPair;
use crate::token::Token;

verus! {

/// A pool of the registry with the two tokens of its pair, earlier one first.
#[derive(Debug, PartialEq, Eq)]
pub struct VlpResponse {
    pub vlp: String,
    pub token_1: Token,
    pub token_2: Token,
}

#[derive(Debug, PartialEq, Eq)]
pub struct AllVlpResponse {
    pub vlps: Vec<VlpResponse>,
}

/// A chain with what the hub knows of it.
#[derive(Debug, PartialEq, Eq)]
pub struct ChainResponse {
    pub chain: String,
    pub chain_uid: ChainUid,
}

#[derive(Debug, PartialEq, Eq)]
pub struct AllChainResponse {
    pub chains: Vec<ChainResponse>,
}

/// A request to price a swap along a route.
#[derive(Debug, PartialEq, Eq)]
pub struct QuerySimulateSwap {
    pub asset_in: Token,
    pub amount_in: u128,
    pub asset_out: Token,
    pub min_amount_out: u128,
    pub swaps: Vec<NextSwapPair>,
}

#[derive(Debug, PartialEq, Eq)]
pub struct SimulateSwapResponse {
    pub amount_out: u128,
    pub asset_out: Token,
}

/// What a release would hand out, and what of the amount would be left.
#[derive(Debug, PartialEq, Eq)]
pub struct SimulateEscrowReleaseResponse {
    pub remaining_amount: u128,
    pub release_amounts: Vec<(u128, CrossChainUserWithLimit)>,
}

/// The balance of a token on one chain.
#[derive(Debug, PartialEq, Eq)]
pub struct TokenEscrowChainResponse {
    pub chain_uid: ChainUid,
    pub balance: u128,
}

#[derive(Debug, PartialEq, Eq)]
pub struct TokenEscrowsResponse {
    pub chains: Vec<TokenEscrowChainResponse>,
}

/// A token with a chain on which the ledger holds it.
#[derive(Debug, PartialEq, Eq)]
pub struct TokenResponse {
    pub token: Token,
    pub chain_uid: ChainUid,
}

#[derive(Debug, PartialEq, Eq)]
pub struct AllTokensResponse {
    pub tokens: Vec<TokenResponse>,
}

} // verus!
