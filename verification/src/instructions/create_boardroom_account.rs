//! Creation of a depositor's boardroom account.

use crate::state::boardroom::BoardroomAccount;
use crate::state::singleton::Singleton;
use crate::types::boardroom::BoardroomStatus;
use crate::types::clock::Clock;
use vstd::prelude::*;

verus! {

/// A depositor's boardroom account as it is created: empty, and frozen
/// since the treasury's current epoch.
pub fn create_boardroom_account_handler(singleton: &Singleton, bump: u8, clock: &Clock) -> (r:
    BoardroomAccount)
    ensures
        r == (BoardroomAccount {
            shares: 0,
            futures: 0,
            last_deposited_timestamp: clock.unix_timestamp,
            epoch_last_deposited: singleton.epoch.index,
            status: BoardroomStatus::Frozen { became_frozen: singleton.epoch.index },
            staged_balance: 0,
            bump,
        }),
{
    BoardroomAccount::init(singleton.epoch(), bump, clock)
}

} // verus!
