//! Unstaking of an NFT.
//!
//! Stake records are closed oldest first. A request to unstake any record
//! but the staker's oldest is refused: closing it would move the live range
//! past a record that still exists.

use crate::errors::ErrorCode;
use crate::state::nft_stake_record::StakeRecord;
use crate::state::nft_stake_record::StakeRecordIndex;
use crate::state::singleton::Singleton;
use crate::types::clock::Clock;
use crate::types::nft_staking::reward_policy;
use crate::types::nft_staking::reward_policy_spec;
use crate::types::nft_staking::RewardDecision;
use vstd::prelude::*;

verus! {

/// Whether `seed_index` can be unstaked: it must name the oldest live
/// record of the staker.
pub open spec fn can_unstake(stake_record_index: StakeRecordIndex, seed_index: u64) -> bool {
    &&& stake_record_index.ledger().valid_seed(seed_index)
    &&& seed_index == stake_record_index.ledger().oldest_seed()
}

/// The reward paid on unstaking under a given decision of the reward
/// policy: the units decided where the stake is eligible and staking is
/// active, and none otherwise.
pub open spec fn unstake_reward(singleton: Singleton, decision: RewardDecision) -> Option<u64> {
    if decision.eligible && singleton.nft_staking.status {
        Some(decision.amount)
    } else {
        None
    }
}

/// Settles an unstaking under a given decision of the reward policy.
///
/// A seed that is not the staker's oldest live record is refused with
/// `InvalidSeedIndex` and the index does not change. Otherwise the record
/// leaves the live range, and the caller mints the reward returned, if any,
/// hands the NFT back and closes its custody account.
pub fn settle_unstake(
    singleton: &Singleton,
    stake_record_index: &mut StakeRecordIndex,
    seed_index: u64,
    decision: RewardDecision,
) -> (r: Result<Option<u64>, ErrorCode>)
    ensures
        can_unstake(*old(stake_record_index), seed_index) ==> {
            &&& r == Ok::<Option<u64>, ErrorCode>(unstake_reward(*singleton, decision))
            &&& final(stake_record_index).ledger() == old(stake_record_index).ledger().after_close()
        },
        !can_unstake(*old(stake_record_index), seed_index) ==> {
            &&& r == Err::<Option<u64>, ErrorCode>(ErrorCode::InvalidSeedIndex)
            &&& *final(stake_record_index) == *old(stake_record_index)
        },
{
    if !stake_record_index.is_valid_seed(seed_index) || !stake_record_index.is_oldest_seed(
        seed_index,
    ) {
        return Err(ErrorCode::InvalidSeedIndex);
    }
    match stake_record_index.pda_closed() {
        Ok(()) => {},
        Err(e) => {
            return Err(e);
        },
    }
    if decision.eligible && singleton.nft_staking.status {
        Ok(Some(decision.amount))
    } else {
        Ok(None)
    }
}

/// Unstakes the NFT of the record that `seed_index` names, paying the
/// reward that the reward policy decides.
pub fn unstake_nft_handler(
    singleton: &Singleton,
    stake_record: &StakeRecord,
    stake_record_index: &mut StakeRecordIndex,
    seed_index: u64,
    clock: &Clock,
) -> (r: Result<Option<u64>, ErrorCode>)
    ensures
        can_unstake(*old(stake_record_index), seed_index) ==> {
            &&& r == Ok::<Option<u64>, ErrorCode>(
                unstake_reward(
                    *singleton,
                    reward_policy_spec(
                        stake_record.staked_at,
                        singleton.nft_staking.minimum_period,
                        clock.unix_timestamp,
                    ),
                ),
            )
            &&& final(stake_record_index).ledger() == old(stake_record_index).ledger().after_close()
        },
        !can_unstake(*old(stake_record_index), seed_index) ==> {
            &&& r == Err::<Option<u64>, ErrorCode>(ErrorCode::InvalidSeedIndex)
            &&& *final(stake_record_index) == *old(stake_record_index)
        },
{
    let decision = reward_policy(
        stake_record.staked_at,
        singleton.nft_staking.minimum_period,
        clock.unix_timestamp,
    );
    settle_unstake(singleton, stake_record_index, seed_index, decision)
}

} // verus!
