//! Bond positions of a user.
//!
//! Each position is a record of its own, holding the amount of bonds, the
//! interest rate and the epoch of purchase. A store per user counts the
//! positions: when one is opened the count goes up, and when the oldest is
//! redeemed and closed an offset goes up, so that the live seeds are known.

use crate::errors::ErrorCode;
use crate::state::position_index::PositionIndex;
use crate::types::bond::UserBondStorage;
use anchor_lang::prelude::Pubkey;
use vstd::prelude::*;

verus! {

/// The number of bond positions of a particular user.
#[derive(Debug, Clone, Copy)]
pub struct BondAccountsStore {
    /// The number of live bond positions.
    pub number_of_accounts: u64,
    /// The number below the lowest live seed.
    pub offset: u64,
    /// The bump of this record's address.
    pub bump: u8,
}

impl BondAccountsStore {
    /// Bytes that the record takes in storage.
    pub const LEN: usize = 8 + 8 + 8 + 1;

    /// The store as a position ledger.
    pub open spec fn ledger(&self) -> PositionIndex {
        PositionIndex { count: self.number_of_accounts, offset: self.offset, bump: self.bump }
    }

    /// The store that holds a ledger's counters.
    pub open spec fn of_ledger(ledger: PositionIndex) -> BondAccountsStore {
        BondAccountsStore {
            number_of_accounts: ledger.count,
            offset: ledger.offset,
            bump: ledger.bump,
        }
    }

    /// A store with the given counters.
    pub fn init(number_of_accounts: u64, offset: u64, bump: u8) -> (r: Self)
        ensures
            r == (BondAccountsStore { number_of_accounts, offset, bump }),
    {
        Self { number_of_accounts, offset, bump }
    }

    /// Counts one more position.
    pub fn increment(&mut self)
        requires
            old(self).number_of_accounts < u64::MAX,
        ensures
            *final(self) == (BondAccountsStore {
                number_of_accounts: (old(self).number_of_accounts + 1) as u64,
                ..*old(self)
            }),
    {
        self.number_of_accounts = self.number_of_accounts + 1;
    }

    /// Opens a position and returns its seed, the next above the live range.
    /// Fails with `MathOverflow`, changing nothing, where that seed does not
    /// fit in 64 bits.
    pub fn create(&mut self) -> (r: Result<u64, ErrorCode>)
        ensures
            old(self).ledger().can_create() ==> r == Ok::<u64, ErrorCode>(
                old(self).ledger().next_seed() as u64,
            ) && final(self).ledger() == old(self).ledger().after_create(),
            !old(self).ledger().can_create() ==> r == Err::<u64, ErrorCode>(
                ErrorCode::MathOverflow,
            ) && *final(self) == *old(self),
    {
        let mut ledger = PositionIndex::new(self.number_of_accounts, self.offset, self.bump);
        let r = ledger.create();
        self.number_of_accounts = ledger.count;
        r
    }

    /// Records that the oldest position was closed. Fails with
    /// `MathOverflow`, changing nothing, where no position is live.
    pub fn pda_closed(&mut self) -> (r: Result<(), ErrorCode>)
        ensures
            old(self).ledger().can_close() ==> r == Ok::<(), ErrorCode>(()) && final(self).ledger() == old(self).ledger().after_close(),
            !old(self).ledger().can_close() ==> r == Err::<(), ErrorCode>(ErrorCode::MathOverflow)
                && *final(self) == *old(self),
    {
        let mut ledger = PositionIndex::new(self.number_of_accounts, self.offset, self.bump);
        let r = ledger.close_oldest();
        self.number_of_accounts = ledger.count;
        self.offset = ledger.offset;
        r
    }

    /// The highest live seed.
    pub fn get_index_of_accounts(&self) -> (r: u64)
        requires
            self.offset + self.number_of_accounts <= u64::MAX,
        ensures
            r == self.offset + self.number_of_accounts,
    {
        self.offset + self.number_of_accounts
    }

    /// The number below the lowest live seed.
    pub fn get_offset(&self) -> (r: u64)
        ensures
            r == self.offset,
    {
        self.offset
    }

    /// Whether `seed_index` names a live position.
    pub fn is_valid_seed(&self, seed_index: u64) -> (r: bool)
        ensures
            r == self.ledger().valid_seed(seed_index),
    {
        PositionIndex::new(self.number_of_accounts, self.offset, self.bump).is_valid_seed(
            seed_index,
        )
    }
}

/// One bond position.
#[derive(Debug, Clone, Copy)]
pub struct BondAccount {
    /// The user who owns this position.
    pub user: Pubkey,
    /// The bonds held.
    pub bonds: UserBondStorage,
    /// The total of bonds purchased over all time when this position took its
    /// first bonds.
    pub index: u64,
    /// The bump of this record's address.
    pub bump: u8,
}

impl BondAccount {
    /// Bytes that the record takes in storage.
    pub const LEN: usize = 8 + 32 + 24 + 1;

    /// A position of `user` with the given bonds.
    pub fn init(
        user: Pubkey,
        bump: u8,
        amount: u64,
        epoch: u64,
        interest_rate: u64,
        index: u64,
    ) -> (r: Self)
        ensures
            r == (BondAccount {
                user,
                bonds: UserBondStorage { amount, epoch, interest_rate },
                index,
                bump,
            }),
    {
        Self { user, bonds: UserBondStorage::new(amount, epoch, interest_rate), bump, index }
    }
}

} // verus!
