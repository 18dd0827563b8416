//! Messages of a pool at the hub.

use vstd::prelude::*;
use crate::fee::Fee;
use crate::pool::Pool;
use crate::swap::NextSwapVlp;
use crate::token::Pair;
use crate::token::PairWithDenom;
use crate::token::Token;

verus! {

#[derive(Debug, PartialEq, Eq)]
pub struct InstantiateMsg {
    pub router: String,
    pub pair: Pair,
    pub fee: Fee,
    pub execute: Option<ExecuteMsg>,
}

#[derive(Debug, PartialEq, Eq)]
pub enum ExecuteMsg {
    /// Registers the pool of another chain with this pool.
    RegisterPool { chain_id: String, factory: String, pair_info: PairWithDenom },
}

#[derive(Debug, PartialEq, Eq)]
pub enum QueryMsg {
    /// Prices a swap of `asset_amount` of `asset` through this pool and then
    /// through the pools of `swaps`.
    SimulateSwap { asset: Token, asset_amount: u128, swaps: Vec<NextSwapVlp> },
    Liquidity {},
    Fee {},
    Pool { chain_id: String },
    GetAllPools {},
}

/// What a pool answers when it prices a swap.
#[derive(Debug, PartialEq, Eq)]
pub struct GetSwapResponse {
    pub amount_out: u128,
    pub asset_out: Token,
}

#[derive(Debug, PartialEq, Eq)]
pub struct GetLiquidityResponse {
    pub pair: Pair,
    pub token_1_reserve: u128,
    pub token_2_reserve: u128,
    pub total_lp_tokens: u128,
}

#[derive(Debug, PartialEq, Eq)]
pub struct PoolInfo {
    pub factory_address: String,
    pub chain: String,
    pub pool: Pool,
}

#[derive(Debug, PartialEq, Eq)]
pub struct FeeResponse {
    pub fee: Fee,
}

#[derive(Debug, PartialEq, Eq)]
pub struct PoolResponse {
    pub pool: Pool,
}

#[derive(Debug, PartialEq, Eq)]
pub struct AllPoolsResponse {
    pub pools: Vec<PoolInfo>,
}

#[derive(Debug, PartialEq, Eq)]
pub struct MigrateMsg {}

} // verus!
