//! Pools as the chains and the hub describe them.

use vstd::prelude::*;
use crate::token::PairWithDenom;

verus! {

/// A pool of a pair on one chain, with what it holds of each token.
#[derive(Debug, PartialEq, Eq)]
pub struct Pool {
    pub chain: String,
    pub pair: PairWithDenom,
    pub reserve_1: u128,
    pub reserve_2: u128,
}

} // verus!
