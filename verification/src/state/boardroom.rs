//! The boardroom account of a depositor.

use crate::types::boardroom::BoardroomStatus;
use crate::types::clock::Clock;
use vstd::prelude::*;

verus! {

/// The boardroom state of one user.
#[derive(Debug, Clone, Copy)]
pub struct BoardroomAccount {
    /// The amount of shares held by this user.
    pub shares: u64,
    /// The amount of futures held by this user.
    pub futures: u64,
    /// The time at which the user last deposited into the boardroom.
    pub last_deposited_timestamp: i64,
    /// The epoch in which the user last deposited.
    pub epoch_last_deposited: u64,
    /// The status of this account.
    pub status: BoardroomStatus,
    /// Staged balance waiting to be staked.
    pub staged_balance: u64,
    /// The bump of this record's address.
    pub bump: u8,
}

impl BoardroomAccount {
    /// Bytes that the record takes in storage.
    pub const LEN: usize = 8 + 8 + 8 + 8 + 8 + 16 + 16 + 1;

    /// Whether the status allows staged balance to be deposited and
    /// withdrawn: frozen or locked, not fluid.
    pub open spec fn frozen_or_locked(&self) -> bool {
        self.status is Frozen || self.status is Locked
    }

    /// An empty account, frozen since `epoch`, last deposited at the clock's
    /// time.
    pub fn init(epoch: u64, bump: u8, clock: &Clock) -> (r: Self)
        ensures
            r == (BoardroomAccount {
                shares: 0,
                futures: 0,
                last_deposited_timestamp: clock.unix_timestamp,
                epoch_last_deposited: epoch,
                status: BoardroomStatus::Frozen { became_frozen: epoch },
                staged_balance: 0,
                bump,
            }),
    {
        Self {
            shares: 0,
            futures: 0,
            last_deposited_timestamp: clock.unix_timestamp,
            epoch_last_deposited: epoch,
            status: BoardroomStatus::frozen(epoch),
            staged_balance: 0,
            bump,
        }
    }

    /// Adds `amount` to the staged balance.
    pub fn increment_balance_of_staged(&mut self, amount: u64)
        requires
            old(self).staged_balance + amount <= u64::MAX,
        ensures
            *final(self) == (BoardroomAccount {
                staged_balance: (old(self).staged_balance + amount) as u64,
                ..*old(self)
            }),
    {
        self.staged_balance = self.staged_balance + amount;
    }

    /// Takes `amount` from the staged balance.
    pub fn decrement_balance_of_staged(&mut self, amount: u64)
        requires
            amount <= old(self).staged_balance,
        ensures
            *final(self) == (BoardroomAccount {
                staged_balance: (old(self).staged_balance - amount) as u64,
                ..*old(self)
            }),
    {
        self.staged_balance = self.staged_balance - amount;
    }

    /// Whether the account is frozen or locked.
    pub fn only_frozen_or_locked(&self) -> (r: bool)
        ensures
            r == self.frozen_or_locked(),
    {
        match self.status {
            BoardroomStatus::Frozen { .. } => true,
            BoardroomStatus::Locked { .. } => true,
            _ => false,
        }
    }
}

} // verus!
