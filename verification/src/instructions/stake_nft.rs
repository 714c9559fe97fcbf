//! Staking of an NFT.

use crate::errors::ErrorCode;
use crate::state::nft_stake_record::StakeRecord;
use crate::state::nft_stake_record::StakeRecordIndex;
use crate::state::singleton::Singleton;
use crate::types::clock::Clock;
use crate::types::pubkey::same_pubkey;
use anchor_lang::prelude::Pubkey;
use vstd::prelude::*;

verus! {

/// What is known of an NFT offered for staking.
#[derive(Debug, Clone, Copy)]
pub struct NftReference {
    /// The mint of the NFT.
    pub mint: Pubkey,
    /// How many tokens the mint has issued.
    pub supply: u64,
    /// How many of them the staker's token account holds.
    pub held: u64,
    /// Whether the NFT's collection is verified.
    pub collection_verified: bool,
    /// The collection that the NFT belongs to.
    pub collection: Pubkey,
}

/// How staking ends: with the seed of the new record, or with the first
/// guard that fails. The mint must have issued exactly one token and the
/// staker must hold it; the NFT's collection must be verified and be the one
/// that the treasury stakes; staking must be active; and the user's index
/// must have a seed left to give out.
pub open spec fn stake_outcome(
    singleton: Singleton,
    stake_record_index: StakeRecordIndex,
    nft: NftReference,
) -> Result<u64, ErrorCode> {
    if nft.supply != 1 {
        Err(ErrorCode::TokenNotNFT)
    } else if nft.held != 1 {
        Err(ErrorCode::TokenAccountEmpty)
    } else if !nft.collection_verified {
        Err(ErrorCode::CollectionNotVerified)
    } else if nft.collection != singleton.nft_staking.collection {
        Err(ErrorCode::InvalidCollection)
    } else if !singleton.nft_staking.status {
        Err(ErrorCode::StakingInactive)
    } else if !stake_record_index.ledger().can_create() {
        Err(ErrorCode::MathOverflow)
    } else {
        Ok(stake_record_index.ledger().next_seed() as u64)
    }
}

/// Stakes an NFT: opens the staker's next stake record, dated with the
/// current epoch and the clock's time, and returns it with its seed. On
/// success the caller moves the NFT into custody. On failure the index does
/// not change.
pub fn stake_handler(
    singleton: &Singleton,
    stake_record_index: &mut StakeRecordIndex,
    nft: &NftReference,
    staker: Pubkey,
    bump: u8,
    clock: &Clock,
) -> (r: Result<(u64, StakeRecord), ErrorCode>)
    ensures
        match stake_outcome(*singleton, *old(stake_record_index), *nft) {
            Ok(seed_index) => {
                &&& r == Ok::<(u64, StakeRecord), ErrorCode>(
                    (
                        seed_index,
                        StakeRecord {
                            staker,
                            nft_mint: nft.mint,
                            staked_epoch: singleton.epoch.index,
                            staked_at: clock.unix_timestamp,
                            bump,
                        },
                    ),
                )
                &&& final(stake_record_index).ledger() == old(stake_record_index).ledger().after_create()
            },
            Err(e) => {
                &&& r == Err::<(u64, StakeRecord), ErrorCode>(e)
                &&& *final(stake_record_index) == *old(stake_record_index)
            },
        },
{
    if nft.supply != 1 {
        return Err(ErrorCode::TokenNotNFT);
    }
    if nft.held != 1 {
        return Err(ErrorCode::TokenAccountEmpty);
    }
    if !nft.collection_verified {
        return Err(ErrorCode::CollectionNotVerified);
    }
    if !same_pubkey(&nft.collection, &singleton.nft_staking.collection) {
        return Err(ErrorCode::InvalidCollection);
    }
    let staking_status = singleton.nft_staking.status;
    if !staking_status {
        return Err(ErrorCode::StakingInactive);
    }
    let staked_epoch = singleton.epoch.index;
    let seed_index: u64 = match stake_record_index.create() {
        Ok(seed_index) => seed_index,
        Err(e) => {
            return Err(e);
        },
    };
    Ok((seed_index, StakeRecord::init(staker, nft.mint, staked_epoch, bump, clock)))
}

} // verus!
