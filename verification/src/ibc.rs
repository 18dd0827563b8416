//! What a chain sends to the hub.

use vstd::prelude::*;
use crate::chain::CrossChainUser;
use crate::chain::CrossChainUserWithLimit;
use crate::swap::NextSwapPair;
use crate::token::Pair;
use crate::token::Token;

verus! {

/// A request to take liquidity out of a pool.
#[derive(Debug, PartialEq, Eq)]
pub struct ChainIbcRemoveLiquidityExecuteMsg {
    pub sender: CrossChainUser,
    pub lp_allocation: u128,
    pub pair: Pair,
    /// Who receives what is taken out, in order of priority.
    pub cross_chain_addresses: Vec<CrossChainUserWithLimit>,
    pub tx_id: String,
}

/// A request to swap along a route.
#[derive(Debug, PartialEq, Eq)]
pub struct ChainIbcSwapExecuteMsg {
    pub sender: CrossChainUser,
    pub asset_in: Token,
    /// What is swapped, after the partner's fee has been taken off.
    pub amount_in: u128,
    pub asset_out: Token,
    pub min_amount_out: u128,
    pub swaps: Vec<NextSwapPair>,
    /// Who receives what comes out, in order of priority.
    pub cross_chain_addresses: Vec<CrossChainUserWithLimit>,
    pub tx_id: String,
}

/// A request of a chain to the hub.
#[derive(Debug, PartialEq, Eq)]
pub enum ChainIbcExecuteMsg {
    RequestPoolCreation { pair: Pair, sender: CrossChainUser, tx_id: String },
    AddLiquidity {
        sender: CrossChainUser,
        token_1_liquidity: u128,
        token_2_liquidity: u128,
        slippage_tolerance: u64,
        pair: Pair,
        tx_id: String,
    },
    RemoveLiquidity(ChainIbcRemoveLiquidityExecuteMsg),
    Swap(ChainIbcSwapExecuteMsg),
}

} // verus!
