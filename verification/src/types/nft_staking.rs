//! Configuration of the NFT staking program.

use crate::types::pubkey::default_pubkey;
use crate::types::pubkey::is_default_pubkey;
use anchor_lang::prelude::Pubkey;
use vstd::prelude::*;

verus! {

/// Stores info on the NFT staking system.
#[derive(Debug, Clone, Copy)]
pub struct NFTStakingStorage {
    /// Whether staking is active.
    pub status: bool,
    /// The staking authority.
    pub authority: Pubkey,
    /// The verified collection address of the NFT.
    pub collection: Pubkey,
    /// The minimum stake period to be eligible for rewards, in epochs.
    pub minimum_period: u64,
    /// The bump of this record's address.
    pub bump: u8,
    /// The bump of the NFT authority's address.
    pub nft_auth_bump: u8,
}

impl Default for NFTStakingStorage {
    /// Staking switched off, with all-zero addresses, no minimum period and
    /// zero bumps.
    fn default() -> (r: Self)
        ensures
            !r.status,
            is_default_pubkey(r.authority),
            is_default_pubkey(r.collection),
            r.minimum_period == 0,
            r.bump == 0,
            r.nft_auth_bump == 0,
    {
        Self {
            status: false,
            authority: default_pubkey(),
            collection: default_pubkey(),
            minimum_period: 0,
            bump: 0,
            nft_auth_bump: 0,
        }
    }
}

/// The units that a stake earns each time its reward is paid.
pub const REWARD_UNITS: u64 = 50_000_000;

/// Whether a stake has earned a reward, and how many units.
#[derive(Debug, Clone, Copy)]
pub struct RewardDecision {
    /// Whether a reward is due.
    pub eligible: bool,
    /// The units due where one is.
    pub amount: u64,
}

/// What the reward policy decides for a stake that has earned since
/// `staked_at`, under a minimum period of `minimum_period`, at time `now`:
/// every stake is eligible for `REWARD_UNITS`, however long it has been
/// held.
pub open spec fn reward_policy_spec(staked_at: i64, minimum_period: u64, now: i64)
    -> RewardDecision {
    RewardDecision { eligible: true, amount: REWARD_UNITS }
}

/// The reward policy. The operations that pay rewards take its decision and
/// are defined for every decision it could make.
pub fn reward_policy(staked_at: i64, minimum_period: u64, now: i64) -> (r: RewardDecision)
    ensures
        r == reward_policy_spec(staked_at, minimum_period, now),
{
    RewardDecision { eligible: true, amount: REWARD_UNITS }
}

} // verus!
