//! Creation of a user's index of stake records.

use crate::state::nft_stake_record::StakeRecordIndex;
use vstd::prelude::*;

verus! {

/// A user's index of stake records as it is created: no record, and the
/// offset zero, so that the first record takes the seed one.
pub fn create_stake_record_index_handler(bump: u8) -> (r: StakeRecordIndex)
    ensures
        r == (StakeRecordIndex { index: 0, offset: 0, bump }),
{
    StakeRecordIndex::init(bump)
}

} // verus!
