//! The messages and responses of the contracts, one module for each contract.

pub mod escrow;
pub mod factory;
pub mod router;
pub mod vlp;
