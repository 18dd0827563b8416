//! Messages of the escrow contract.

use vstd::prelude::*;
use crate::token::Token;
use crate::token::TokenType;

verus! {

#[derive(Debug, PartialEq, Eq)]
pub struct InstantiateMsg {
    /// The only token that the escrow holds.
    pub token_id: Token,
}

/// A transfer of contract-held tokens, as the token contract announces it.
#[derive(Debug, PartialEq, Eq)]
pub struct Cw20ReceiveMsg {
    pub sender: String,
    pub amount: u128,
    pub msg: Vec<u8>,
}

#[derive(Debug, PartialEq, Eq)]
pub enum ExecuteMsg {
    /// Allows a denomination.
    AddAllowedDenom { denom: TokenType },
    /// Takes a denomination off the allowed ones.
    DisallowDenom { denom: TokenType },
    DepositNative {},
    Receive(Cw20ReceiveMsg),
    Withdraw { recipient: String, amount: u128, chain_id: String },
}

#[derive(Debug, PartialEq, Eq)]
pub enum QueryMsg {
    TokenId {},
    TokenAllowed { denom: TokenType },
}

#[derive(Debug, PartialEq, Eq)]
pub struct MigrateMsg {}

#[derive(Debug, PartialEq, Eq)]
pub struct TokenIdResponse {
    pub token_id: String,
}

#[derive(Debug, PartialEq, Eq)]
pub struct AllowedTokenResponse {
    pub allowed: bool,
}

#[derive(Debug, PartialEq, Eq)]
pub struct AmountAndType {
    pub amount: u128,
    pub is_native: bool,
}

#[derive(Debug, PartialEq, Eq)]
pub struct EscrowInstantiateResponse {
    pub token: Token,
    pub address: String,
}

} // verus!
