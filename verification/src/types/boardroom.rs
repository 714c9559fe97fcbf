//! The status of a boardroom account and the boardroom's totals.

use vstd::prelude::*;

verus! {

/// The status of a boardroom account, each with the epoch it refers to.
#[derive(Debug, Clone, Copy)]
pub enum BoardroomStatus {
    Fluid { fluid_until: u64 },
    Frozen { became_frozen: u64 },
    Locked { locked_until: u64 },
}

impl BoardroomStatus {
    /// Frozen since `epoch`.
    pub fn frozen(epoch: u64) -> (r: Self)
        ensures
            r == (BoardroomStatus::Frozen { became_frozen: epoch }),
    {
        Self::Frozen { became_frozen: epoch }
    }

    /// Fluid until `epoch`.
    pub fn fluid(epoch: u64) -> (r: Self)
        ensures
            r == (BoardroomStatus::Fluid { fluid_until: epoch }),
    {
        Self::Fluid { fluid_until: epoch }
    }

    /// Locked until `epoch`.
    pub fn locked(epoch: u64) -> (r: Self)
        ensures
            r == (BoardroomStatus::Locked { locked_until: epoch }),
    {
        Self::Locked { locked_until: epoch }
    }
}

/// Totals over all boardroom accounts.
#[derive(Debug, Clone, Copy)]
pub struct BoardroomBalances {
    /// The units staged by all depositors together.
    pub total_deposited_units: u64,
}

impl Default for BoardroomBalances {
    /// Nothing deposited.
    fn default() -> (r: Self)
        ensures
            r == (BoardroomBalances { total_deposited_units: 0 }),
    {
        Self { total_deposited_units: 0 }
    }
}

} // verus!
