//! The recycling ledger that bounds which positions of a user are live.
//!
//! Positions are numbered by a seed. The ledger keeps how many positions
//! have been closed (`offset`) and how many are live (`count`); the live
//! seeds are those above `offset` up to `offset + count`. New positions take
//! the next seed above the live range. Positions are closed oldest first: only
//! the lowest live seed, `offset + 1`, can leave the range, and the ledger
//! offers no way to close another one.

use crate::errors::ErrorCode;
use vstd::prelude::*;

verus! {

/// How many positions are live and how many have been closed before them.
#[derive(Debug, Clone, Copy)]
pub struct PositionIndex {
    /// The number of live positions.
    pub count: u64,
    /// The number below the lowest live seed.
    pub offset: u64,
    /// The bump of this record's address.
    pub bump: u8,
}

impl PositionIndex {
    /// Whether `seed_index` names a live position.
    pub open spec fn valid_seed(&self, seed_index: u64) -> bool {
        self.offset < seed_index <= self.offset + self.count
    }

    /// The seed that the next new position takes.
    pub open spec fn next_seed(&self) -> int {
        self.offset + self.count + 1
    }

    /// The seed of the oldest live position.
    pub open spec fn oldest_seed(&self) -> int {
        self.offset + 1
    }

    /// The ledger after a position was created.
    pub open spec fn after_create(&self) -> PositionIndex {
        PositionIndex { count: (self.count + 1) as u64, offset: self.offset, bump: self.bump }
    }

    /// The ledger after its oldest position was closed.
    pub open spec fn after_close(&self) -> PositionIndex {
        PositionIndex {
            count: (self.count - 1) as u64,
            offset: (self.offset + 1) as u64,
            bump: self.bump,
        }
    }

    /// Whether a position can be created: its seed must fit in 64 bits.
    pub open spec fn can_create(&self) -> bool {
        self.next_seed() <= u64::MAX
    }

    /// Whether the oldest position can be closed: there must be one.
    pub open spec fn can_close(&self) -> bool {
        self.count > 0 && self.offset < u64::MAX
    }

    /// A ledger with the given counters.
    pub fn new(count: u64, offset: u64, bump: u8) -> (r: Self)
        ensures
            r == (PositionIndex { count, offset, bump }),
    {
        Self { count, offset, bump }
    }

    /// Whether `seed_index` names a live position.
    pub fn is_valid_seed(&self, seed_index: u64) -> (r: bool)
        ensures
            r == self.valid_seed(seed_index),
    {
        seed_index > self.offset && seed_index - self.offset <= self.count
    }

    /// Whether `seed_index` names the oldest live position.
    pub fn is_oldest_seed(&self, seed_index: u64) -> (r: bool)
        ensures
            r == (self.count > 0 && seed_index == self.oldest_seed()),
    {
        self.count > 0 && seed_index > self.offset && seed_index - self.offset == 1
    }

    /// Opens a position and returns its seed, the next above the live range.
    /// Fails with `MathOverflow`, changing nothing, where that seed does not
    /// fit in 64 bits.
    pub fn create(&mut self) -> (r: Result<u64, ErrorCode>)
        ensures
            old(self).can_create() ==> r == Ok::<u64, ErrorCode>(old(self).next_seed() as u64)
                && *final(self) == old(self).after_create(),
            !old(self).can_create() ==> r == Err::<u64, ErrorCode>(ErrorCode::MathOverflow)
                && *final(self) == *old(self),
    {
        let last: u64 = match self.offset.checked_add(self.count) {
            Some(last) => last,
            None => {
                return Err(ErrorCode::MathOverflow);
            },
        };
        if last == u64::MAX {
            return Err(ErrorCode::MathOverflow);
        }
        self.count = self.count + 1;
        Ok(last + 1)
    }

    /// Closes the oldest live position. Fails with `MathOverflow`, changing
    /// nothing, where no position is live.
    pub fn close_oldest(&mut self) -> (r: Result<(), ErrorCode>)
        ensures
            old(self).can_close() ==> r == Ok::<(), ErrorCode>(()) && *final(self) == old(self).after_close(),
            !old(self).can_close() ==> r == Err::<(), ErrorCode>(ErrorCode::MathOverflow)
                && *final(self) == *old(self),
    {
        if self.count == 0 || self.offset == u64::MAX {
            return Err(ErrorCode::MathOverflow);
        }
        self.count = self.count - 1;
        self.offset = self.offset + 1;
        Ok(())
    }
}

/// A new position's seed is live once it is created and was not before, and
/// creating it changes the standing of no other seed.
pub proof fn lemma_create_adds_one_seed(ledger: PositionIndex, seed_index: u64)
    requires
        ledger.can_create(),
    ensures
        !ledger.valid_seed(ledger.next_seed() as u64),
        ledger.after_create().valid_seed(ledger.next_seed() as u64),
        seed_index != ledger.next_seed() ==> (ledger.after_create().valid_seed(seed_index)
            <==> ledger.valid_seed(seed_index)),
{
}

/// Closing removes the oldest seed from the live range and changes the
/// standing of no other seed; the seed that the next position takes stays
/// the same, so no seed is ever given out twice.
pub proof fn lemma_close_removes_oldest_seed(ledger: PositionIndex, seed_index: u64)
    requires
        ledger.can_close(),
    ensures
        ledger.valid_seed(ledger.oldest_seed() as u64),
        !ledger.after_close().valid_seed(ledger.oldest_seed() as u64),
        seed_index != ledger.oldest_seed() ==> (ledger.after_close().valid_seed(seed_index)
            <==> ledger.valid_seed(seed_index)),
        ledger.after_close().next_seed() == ledger.next_seed(),
{
}

/// A ledger with no live position has no valid seed, and cannot close one.
pub proof fn lemma_empty_ledger(ledger: PositionIndex, seed_index: u64)
    requires
        ledger.count == 0,
    ensures
        !ledger.valid_seed(seed_index),
        !ledger.can_close(),
{
}

} // verus!
