//! Settlement logic of a cross-chain swap and liquidity protocol: the hub's
//! pair registry and escrow ledger, route validation, swap simulation,
//! escrow-release allocation, and the per-chain request lifecycle.

pub mod chain;
pub mod error;
pub mod escrow;
pub mod factory;
pub mod fee;
pub mod ibc;
pub mod listing;
pub mod msgs;
pub mod order;
pub mod pool;
pub mod router;
pub mod store;
pub mod swap;
pub mod timeout;
pub mod token;
pub mod utils;
