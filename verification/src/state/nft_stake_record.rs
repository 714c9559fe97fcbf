//! Stake records of a user's NFTs.

use crate::errors::ErrorCode;
use crate::state::position_index::PositionIndex;
use crate::types::clock::Clock;
use anchor_lang::prelude::Pubkey;
use vstd::prelude::*;

verus! {

/// The number of stake records of a particular user.
#[derive(Debug, Clone, Copy)]
pub struct StakeRecordIndex {
    /// The number of live stake records.
    pub index: u64,
    /// The number of stake records closed.
    pub offset: u64,
    /// The bump of this record's address.
    pub bump: u8,
}

impl StakeRecordIndex {
    /// Bytes that the record takes in storage.
    pub const LEN: usize = 8 + 8 + 8 + 1;

    /// The index as a position ledger.
    pub open spec fn ledger(&self) -> PositionIndex {
        PositionIndex { count: self.index, offset: self.offset, bump: self.bump }
    }

    /// An index with no record staked or closed.
    pub fn init(bump: u8) -> (r: Self)
        ensures
            r == (StakeRecordIndex { index: 0, offset: 0, bump }),
    {
        Self { index: 0, offset: 0, bump }
    }

    /// The highest live seed.
    pub fn get_index_of_accounts(&self) -> (r: u64)
        requires
            self.index + self.offset <= u64::MAX,
        ensures
            r == self.index + self.offset,
    {
        self.index + self.offset
    }

    /// The number of stake records closed.
    pub fn get_offset(&self) -> (r: u64)
        ensures
            r == self.offset,
    {
        self.offset
    }

    /// Opens a record and returns its seed, the next above the live range.
    /// Fails with `MathOverflow`, changing nothing, where that seed does not
    /// fit in 64 bits.
    pub fn create(&mut self) -> (r: Result<u64, ErrorCode>)
        ensures
            old(self).ledger().can_create() ==> r == Ok::<u64, ErrorCode>(
                old(self).ledger().next_seed() as u64,
            ) && final(self).ledger() == old(self).ledger().after_create(),
            !old(self).ledger().can_create() ==> r == Err::<u64, ErrorCode>(
                ErrorCode::MathOverflow,
            ) && *final(self) == *old(self),
    {
        let mut ledger = PositionIndex::new(self.index, self.offset, self.bump);
        let r = ledger.create();
        self.index = ledger.count;
        r
    }

    /// Records that the oldest record was closed. Fails with `MathOverflow`,
    /// changing nothing, where no record is live.
    pub fn pda_closed(&mut self) -> (r: Result<(), ErrorCode>)
        ensures
            old(self).ledger().can_close() ==> r == Ok::<(), ErrorCode>(()) && final(self).ledger() == old(self).ledger().after_close(),
            !old(self).ledger().can_close() ==> r == Err::<(), ErrorCode>(ErrorCode::MathOverflow)
                && *final(self) == *old(self),
    {
        let mut ledger = PositionIndex::new(self.index, self.offset, self.bump);
        let r = ledger.close_oldest();
        self.index = ledger.count;
        self.offset = ledger.offset;
        r
    }

    /// Whether `seed_index` names a live record.
    pub fn is_valid_seed(&self, seed_index: u64) -> (r: bool)
        ensures
            r == self.ledger().valid_seed(seed_index),
    {
        PositionIndex::new(self.index, self.offset, self.bump).is_valid_seed(seed_index)
    }

    /// Whether `seed_index` names the oldest live record.
    pub fn is_oldest_seed(&self, seed_index: u64) -> (r: bool)
        ensures
            r == (self.index > 0 && seed_index == self.ledger().oldest_seed()),
    {
        PositionIndex::new(self.index, self.offset, self.bump).is_oldest_seed(seed_index)
    }
}

/// The record of one staked NFT.
#[derive(Debug, Clone, Copy)]
pub struct StakeRecord {
    /// The owner and staker of the NFT.
    pub staker: Pubkey,
    /// The mint of the staked NFT.
    pub nft_mint: Pubkey,
    /// The epoch in which the NFT was staked.
    pub staked_epoch: u64,
    /// The time from which the stake earns: when it was staked, or when its
    /// reward was last claimed.
    pub staked_at: i64,
    /// The bump of this record's address.
    pub bump: u8,
}

impl StakeRecord {
    /// Bytes that the record takes in storage.
    pub const LEN: usize = 8 + 32 + 32 + 8 + 8 + 1;

    /// The record of an NFT staked at the clock's time.
    pub fn init(staker: Pubkey, nft_mint: Pubkey, staked_epoch: u64, bump: u8, clock: &Clock) -> (r:
        Self)
        ensures
            r == (StakeRecord {
                staker,
                nft_mint,
                staked_epoch,
                staked_at: clock.unix_timestamp,
                bump,
            }),
    {
        let staked_at = clock.unix_timestamp;
        Self { staker, nft_mint, staked_epoch, staked_at, bump }
    }
}

} // verus!
