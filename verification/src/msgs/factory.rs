//! Messages of a chain's factory.

use vstd::prelude::*;
use crate::chain::CrossChainUserWithLimit;
use crate::fee::PartnerFee;
use crate::msgs::escrow::Cw20ReceiveMsg;
use crate::store::PendingRecord;
use crate::swap::NextSwapPair;
use crate::token::Pair;
use crate::token::PairWithDenom;
use crate::token::Token;
use crate::token::TokenWithDenom;

verus! {

#[derive(Debug, PartialEq, Eq)]
pub struct InstantiateMsg {
    /// The router at the hub.
    pub router_contract: String,
    pub chain_id: String,
    pub escrow_code_id: u64,
}

#[derive(Debug, PartialEq, Eq)]
pub enum ExecuteMsg {
    RequestRegisterDenom { token: TokenWithDenom },
    RequestDeregisterDenom { token: TokenWithDenom },
    RequestPoolCreation { pair_info: PairWithDenom, timeout: Option<u64>, tx_id: String },
    AddLiquidityRequest {
        pair_info: PairWithDenom,
        token_1_liquidity: u128,
        token_2_liquidity: u128,
        slippage_tolerance: u64,
        timeout: Option<u64>,
        tx_id: String,
    },
    RemoveLiquidityRequest {
        pair: Pair,
        lp_allocation: u128,
        timeout: Option<u64>,
        cross_chain_addresses: Vec<CrossChainUserWithLimit>,
        tx_id: String,
    },
    ExecuteSwapRequest {
        asset_in: TokenWithDenom,
        asset_out: Token,
        amount_in: u128,
        min_amount_out: u128,
        timeout: Option<u64>,
        swaps: Vec<NextSwapPair>,
        cross_chain_addresses: Vec<CrossChainUserWithLimit>,
        tx_id: String,
        partner_fee: Option<PartnerFee>,
    },
    UpdateHubChannel { new_channel: String },
    Receive(Cw20ReceiveMsg),
}

#[derive(Debug, PartialEq, Eq)]
pub enum QueryMsg {
    GetPool { vlp: String },
    GetState {},
    GetAllPools {},
    PendingSwapsUser { user: String, lower_limit: Option<u128>, upper_limit: Option<u128> },
    PendingLiquidity { user: String, lower_limit: Option<u128>, upper_limit: Option<u128> },
    GetEscrow { token_id: String },
}

#[derive(Debug, PartialEq, Eq)]
pub struct GetPoolResponse {
    pub pair_info: PairWithDenom,
}

#[derive(Debug, PartialEq, Eq)]
pub struct GetEscrowResponse {
    pub escrow_address: Option<String>,
}

#[derive(Debug, PartialEq, Eq)]
pub struct StateResponse {
    pub chain_id: String,
    pub router_contract: String,
    pub hub_channel: Option<String>,
    pub admin: String,
}

#[derive(Debug, PartialEq, Eq)]
pub struct AllPoolsResponse {
    pub pools: Vec<PoolVlpResponse>,
}

/// A pool that the chain knows, with its pair.
#[derive(Debug, PartialEq, Eq)]
pub struct PoolVlpResponse {
    pub pair: Pair,
    pub vlp: String,
}

/// The swap requests that a requester has in flight.
#[derive(Debug, PartialEq, Eq)]
pub struct GetPendingSwapsResponse {
    pub pending_swaps: Vec<PendingRecord>,
}

/// The requests to add liquidity that a requester has in flight.
#[derive(Debug, PartialEq, Eq)]
pub struct GetPendingLiquidityResponse {
    pub pending_liquidity: Vec<PendingRecord>,
}

#[derive(Debug, PartialEq, Eq)]
pub struct MigrateMsg {}

#[derive(Debug, PartialEq, Eq)]
pub struct RegisterFactoryResponse {
    pub factory_address: String,
    pub chain_id: String,
}

#[derive(Debug, PartialEq, Eq)]
pub struct ReleaseEscrowResponse {
    pub factory_address: String,
    pub chain_id: String,
    pub amount: u128,
    pub token_id: String,
    pub to_address: String,
    pub to_chain_id: String,
}

} // verus!
