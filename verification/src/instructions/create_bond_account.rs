//! Opening of a bond position.

use crate::errors::ErrorCode;
use crate::state::bond_account::BondAccount;
use crate::state::bond_account::BondAccountsStore;
use crate::state::singleton::Singleton;
use crate::types::bond::UserBondStorage;
use anchor_lang::prelude::Pubkey;
use vstd::prelude::*;

verus! {

/// Opens an empty bond position for `user` and returns it with its seed,
/// the next above the user's live seeds. The position carries the current
/// epoch and rate and the pool's count of all bonds purchased so far. Fails
/// with `MathOverflow`, changing nothing, where the store cannot give out
/// another seed.
pub fn create_bond_account_handler(
    bond_accounts_store: &mut BondAccountsStore,
    singleton: &Singleton,
    user: Pubkey,
    bump: u8,
) -> (r: Result<(u64, BondAccount), ErrorCode>)
    ensures
        old(bond_accounts_store).ledger().can_create() ==> {
            &&& r == Ok::<(u64, BondAccount), ErrorCode>(
                (
                    old(bond_accounts_store).ledger().next_seed() as u64,
                    BondAccount {
                        user,
                        bonds: UserBondStorage {
                            amount: 0,
                            epoch: singleton.epoch.index,
                            interest_rate: singleton.epoch.base_rate,
                        },
                        index: singleton.bonds.total_bonds_purchased,
                        bump,
                    },
                ),
            )
            &&& final(bond_accounts_store).ledger() == old(bond_accounts_store).ledger().after_create()
        },
        !old(bond_accounts_store).ledger().can_create() ==> {
            &&& r == Err::<(u64, BondAccount), ErrorCode>(ErrorCode::MathOverflow)
            &&& *final(bond_accounts_store) == *old(bond_accounts_store)
        },
{
    let seed_index: u64 = match bond_accounts_store.create() {
        Ok(seed_index) => seed_index,
        Err(e) => {
            return Err(e);
        },
    };
    let bond_account = BondAccount::init(
        user,
        bump,
        0,
        singleton.epoch.index,
        singleton.interest_rate(),
        singleton.bonds.total_bonds_purchased,
    );
    Ok((seed_index, bond_account))
}

} // verus!
