//! Treasury protocol engine: scaled prices, the epoch clock, bond issuance,
//! recyclable position ledgers, NFT staking records and boardroom balances.

pub mod errors;
pub mod instructions;
pub mod state;
pub mod types;
pub mod utils;
