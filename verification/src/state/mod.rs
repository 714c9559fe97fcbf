//! The records that the protocol keeps: the treasury and the per-user
//! ledgers.

pub mod boardroom;
pub mod bond_account;
pub mod nft_stake_record;
pub mod position_index;
pub mod singleton;
