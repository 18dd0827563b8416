//! A chain's side of the protocol.

pub mod execute;
pub mod query;
pub mod response;
