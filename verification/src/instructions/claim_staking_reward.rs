//! Claim of a stake's reward.

use crate::errors::ErrorCode;
use crate::state::nft_stake_record::StakeRecord;
use crate::state::nft_stake_record::StakeRecordIndex;
use crate::state::singleton::Singleton;
use crate::types::clock::Clock;
use crate::types::nft_staking::reward_policy;
use crate::types::nft_staking::reward_policy_spec;
use crate::types::nft_staking::RewardDecision;
use vstd::prelude::*;

verus! {

/// How a claim ends under a given decision of the reward policy: with the
/// units to pay, or with the first guard that fails. The seed must name a
/// live record of the staker, staking must be active, and the policy must
/// find the stake eligible.
pub open spec fn claim_outcome(
    singleton: Singleton,
    stake_record_index: StakeRecordIndex,
    seed_index: u64,
    decision: RewardDecision,
) -> Result<u64, ErrorCode> {
    if !stake_record_index.ledger().valid_seed(seed_index) {
        Err(ErrorCode::InvalidSeedIndex)
    } else if !singleton.nft_staking.status {
        Err(ErrorCode::StakingInactive)
    } else if !decision.eligible {
        Err(ErrorCode::IneligibleForReward)
    } else {
        Ok(decision.amount)
    }
}

/// Settles a claim under a given decision of the reward policy. On success
/// the record earns anew from the clock's time, and the caller mints the
/// units returned to the staker. On failure the record does not change.
pub fn settle_claim(
    singleton: &Singleton,
    stake_record: &mut StakeRecord,
    stake_record_index: &StakeRecordIndex,
    seed_index: u64,
    decision: RewardDecision,
    clock: &Clock,
) -> (r: Result<u64, ErrorCode>)
    ensures
        r == claim_outcome(*singleton, *stake_record_index, seed_index, decision),
        r.is_ok() ==> *final(stake_record) == (StakeRecord {
            staked_at: clock.unix_timestamp,
            ..*old(stake_record)
        }),
        r.is_err() ==> *final(stake_record) == *old(stake_record),
{
    if !stake_record_index.is_valid_seed(seed_index) {
        return Err(ErrorCode::InvalidSeedIndex);
    }
    if !singleton.nft_staking.status {
        return Err(ErrorCode::StakingInactive);
    }
    if !decision.eligible {
        return Err(ErrorCode::IneligibleForReward);
    }
    stake_record.staked_at = clock.unix_timestamp;
    Ok(decision.amount)
}

/// Claims the reward of the stake that `seed_index` names, as the reward
/// policy decides it.
pub fn claim_reward_handler(
    singleton: &Singleton,
    stake_record: &mut StakeRecord,
    stake_record_index: &StakeRecordIndex,
    seed_index: u64,
    clock: &Clock,
) -> (r: Result<u64, ErrorCode>)
    ensures
        r == claim_outcome(
            *singleton,
            *stake_record_index,
            seed_index,
            reward_policy_spec(
                old(stake_record).staked_at,
                singleton.nft_staking.minimum_period,
                clock.unix_timestamp,
            ),
        ),
        r.is_ok() ==> *final(stake_record) == (StakeRecord {
            staked_at: clock.unix_timestamp,
            ..*old(stake_record)
        }),
        r.is_err() ==> *final(stake_record) == *old(stake_record),
{
    let decision = reward_policy(
        stake_record.staked_at,
        singleton.nft_staking.minimum_period,
        clock.unix_timestamp,
    );
    settle_claim(singleton, stake_record, stake_record_index, seed_index, decision, clock)
}

} // verus!
