//! Creation of a user's store of bond positions.

use crate::state::bond_account::BondAccountsStore;
use vstd::prelude::*;

verus! {

/// A user's store of bond positions as it is created: no position, and the
/// offset one, so that the first position takes the seed two.
pub fn create_bond_accounts_store_handler(bump: u8) -> (r: BondAccountsStore)
    ensures
        r == (BondAccountsStore { number_of_accounts: 0, offset: 1, bump }),
{
    BondAccountsStore::init(0, 1, bump)
}

} // verus!
