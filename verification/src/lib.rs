//! Decision logic of a CosmWasm NFT contract whose tokens cannot be
//! transferred by anyone but the contract admin, and which keeps signed
//! loyalty points per token.

pub mod state;
pub mod msg;
pub mod helpers;
pub mod encoding;
pub mod contract;
