//! The protocol's operations. Each one checks all of its guards before it
//! changes anything, so that a failure leaves every record as it was, and
//! returns what the token ledger is then asked to do.

pub mod boardroom_deposit;
pub mod boardroom_withdraw;
pub mod claim_staking_reward;
pub mod create_boardroom_account;
pub mod create_bond_account;
pub mod create_bond_accounts_store;
pub mod create_stake_record_index;
pub mod initialize;
pub mod purchase_bonds;
pub mod stake_nft;
pub mod unstake_nft;
