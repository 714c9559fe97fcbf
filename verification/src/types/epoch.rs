//! The epoch clock: a counter that advances at most once an hour and carries
//! the base interest rate and the peg status.

use crate::errors::ErrorCode;
use crate::types::clock::Clock;
use vstd::prelude::*;

verus! {

/// Seconds in an hour, the shortest time between two epochs.
pub const HOUR: i64 = 60 * 60;

/// The current epoch.
#[derive(Debug, Clone, Copy)]
pub struct Epoch {
    /// The index of the current epoch.
    pub index: u64,
    /// The unix timestamp this epoch started at.
    pub timestamp: i64,
    /// The slot this epoch started at.
    pub slot: u64,
    /// Whether the unit's price was above peg at the beginning of this epoch.
    pub above_peg: bool,
    /// Base interest rate for this epoch.
    pub base_rate: u64,
}

impl Epoch {
    /// Whether an hour has passed since this epoch began.
    pub open spec fn advanceable_at(&self, now: i64) -> bool {
        now >= self.timestamp + HOUR
    }

    /// What `advance` returns: before the hour has passed the epoch cannot
    /// advance; an index that cannot grow is an overflow; otherwise the next
    /// epoch begins at the clock's time and slot with the given peg status
    /// and rate.
    pub open spec fn advance_spec(&self, clock: &Clock, above_peg: bool, base_rate: u64) -> Result<
        Epoch,
        ErrorCode,
    > {
        if !self.advanceable_at(clock.unix_timestamp) {
            Err(ErrorCode::EpochNotAdvanceable)
        } else if self.index == u64::MAX {
            Err(ErrorCode::MathOverflow)
        } else {
            Ok(
                Epoch {
                    index: (self.index + 1) as u64,
                    timestamp: clock.unix_timestamp,
                    slot: clock.slot,
                    above_peg,
                    base_rate,
                },
            )
        }
    }

    /// The first epoch: index zero, begun at the clock's time and slot, above
    /// peg, at rate zero.
    pub fn init(clock: &Clock) -> (r: Self)
        ensures
            r == (Epoch {
                index: 0,
                timestamp: clock.unix_timestamp,
                slot: clock.slot,
                above_peg: true,
                base_rate: 0,
            }),
    {
        Self {
            index: 0,
            timestamp: clock.unix_timestamp,
            slot: clock.slot,
            above_peg: true,
            base_rate: 0,
        }
    }

    /// The epoch after this one, once an hour has passed since this one
    /// began. `self` is left as it is.
    pub fn advance(&self, clock: &Clock, above_peg: bool, base_rate: u64) -> (r: Result<
        Self,
        ErrorCode,
    >)
        ensures
            r == self.advance_spec(clock, above_peg, base_rate),
    {
        match self.timestamp.checked_add(HOUR) {
            None => {
                return Err(ErrorCode::EpochNotAdvanceable);
            },
            Some(earliest) => {
                if clock.unix_timestamp < earliest {
                    return Err(ErrorCode::EpochNotAdvanceable);
                }
            },
        }
        if self.index == u64::MAX {
            return Err(ErrorCode::MathOverflow);
        }
        Ok(
            Self {
                index: self.index + 1,
                timestamp: clock.unix_timestamp,
                slot: clock.slot,
                above_peg,
                base_rate,
            },
        )
    }
}

/// The epoch gate: an epoch whose index can still grow advances exactly
/// when an hour has passed since it began. Before that the attempt fails with
/// `EpochNotAdvanceable`; from then on it succeeds, the index grows by exactly
/// one, and the new epoch begins at the time and slot of the attempt.
pub proof fn lemma_epoch_gate(epoch: Epoch, clock: Clock, above_peg: bool, base_rate: u64)
    requires
        epoch.index < u64::MAX,
    ensures
        clock.unix_timestamp < epoch.timestamp + HOUR <==> epoch.advance_spec(
            &clock,
            above_peg,
            base_rate,
        ) == Err::<Epoch, ErrorCode>(ErrorCode::EpochNotAdvanceable),
        clock.unix_timestamp >= epoch.timestamp + HOUR <==> epoch.advance_spec(
            &clock,
            above_peg,
            base_rate,
        ).is_ok(),
        epoch.advance_spec(&clock, above_peg, base_rate) matches Ok(next) ==> next.index
            == epoch.index + 1 && next.timestamp == clock.unix_timestamp && next.slot == clock.slot
            && next.above_peg == above_peg && next.base_rate == base_rate,
{
}

} // verus!
