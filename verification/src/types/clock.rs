//! The ledger's clock, as far as the protocol reads it.

use vstd::prelude::*;

verus! {

/// The slot and the time at which an operation runs.
#[derive(Debug, Clone, Copy)]
pub struct Clock {
    /// The current slot.
    pub slot: u64,
    /// The current unix time, in seconds.
    pub unix_timestamp: i64,
}

} // verus!
