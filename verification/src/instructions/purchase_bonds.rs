//! Purchase of bonds into a position.

use crate::errors::ErrorCode;
use crate::state::bond_account::BondAccount;
use crate::state::bond_account::BondAccountsStore;
use crate::state::singleton::units_to_bonds_spec;
use crate::state::singleton::Singleton;
use crate::types::bond::UserBondStorage;
use vstd::prelude::*;

verus! {

/// Whether a position can take bonds in `epoch`: it holds none yet, or it
/// holds bonds of that same epoch.
pub open spec fn position_open_in(bond_account: BondAccount, epoch: u64) -> bool {
    bond_account.bonds.amount == 0 || bond_account.bonds.epoch == epoch
}

/// How a purchase ends: with the bonds bought, or with the first guard that
/// fails. The seed must name a live position of the user; the position must
/// be open in the current epoch; the units must convert to bonds at the
/// current rate; and the position and the pool must be able to take them.
pub open spec fn purchase_outcome(
    bond_account: BondAccount,
    bond_accounts_store: BondAccountsStore,
    singleton: Singleton,
    seed_index: u64,
    units: u64,
) -> Result<u64, ErrorCode> {
    if !bond_accounts_store.ledger().valid_seed(seed_index) {
        Err(ErrorCode::InvalidSeedIndex)
    } else if !position_open_in(bond_account, singleton.epoch.index) {
        Err(ErrorCode::BondAccountInvalidEpoch)
    } else {
        match units_to_bonds_spec(units, singleton.epoch.base_rate) {
            Err(e) => Err(e),
            Ok(bonds) => if bond_account.bonds.amount + bonds > u64::MAX
                || !singleton.bonds.can_take(bonds) {
                Err(ErrorCode::MathOverflow)
            } else {
                Ok(bonds)
            },
        }
    }
}

/// The position after `bonds` were bought into it: it takes the current
/// epoch and rate, and, with its first bonds, the pool's count of all bonds
/// purchased before as its index.
pub open spec fn position_after_purchase(
    bond_account: BondAccount,
    singleton: Singleton,
    bonds: u64,
) -> BondAccount {
    BondAccount {
        user: bond_account.user,
        bonds: UserBondStorage {
            amount: (bond_account.bonds.amount + bonds) as u64,
            epoch: singleton.epoch.index,
            interest_rate: singleton.epoch.base_rate,
        },
        index: if bond_account.bonds.amount == 0 {
            singleton.bonds.total_bonds_purchased
        } else {
            bond_account.index
        },
        bump: bond_account.bump,
    }
}

/// Buys bonds for `units` into the position that `seed_index` names.
///
/// On success the bonds join the position and leave the pool's available
/// bonds. On failure neither the position nor the treasury changes.
pub fn purchase_bonds_handler(
    bond_account: &mut BondAccount,
    bond_accounts_store: &BondAccountsStore,
    singleton: &mut Singleton,
    seed_index: u64,
    units: u64,
) -> (r: Result<(), ErrorCode>)
    ensures
        match purchase_outcome(
            *old(bond_account),
            *bond_accounts_store,
            *old(singleton),
            seed_index,
            units,
        ) {
            Ok(bonds) => {
                &&& r == Ok::<(), ErrorCode>(())
                &&& *final(bond_account) == position_after_purchase(
                    *old(bond_account),
                    *old(singleton),
                    bonds,
                )
                &&& *final(singleton) == (Singleton {
                    bonds: old(singleton).bonds.after_purchase(bonds),
                    ..*old(singleton)
                })
            },
            Err(e) => {
                &&& r == Err::<(), ErrorCode>(e)
                &&& *final(bond_account) == *old(bond_account)
                &&& *final(singleton) == *old(singleton)
            },
        },
{
    if !bond_accounts_store.is_valid_seed(seed_index) {
        return Err(ErrorCode::InvalidSeedIndex);
    }
    let epoch = singleton.epoch();
    if !(bond_account.bonds.amount == 0 || bond_account.bonds.epoch == epoch) {
        return Err(ErrorCode::BondAccountInvalidEpoch);
    }
    let amount: u64 = match singleton.units_to_bonds(units) {
        Ok(amount) => amount,
        Err(e) => {
            return Err(e);
        },
    };
    let rate = singleton.interest_rate();
    if amount > u64::MAX - bond_account.bonds.amount || amount > singleton.bonds.available_bonds
        || amount > u64::MAX - singleton.bonds.bonds_purchased || amount > u64::MAX
        - singleton.bonds.total_bonds_purchased {
        return Err(ErrorCode::MathOverflow);
    }
    if bond_account.bonds.amount == 0 {
        bond_account.index = singleton.bonds.total_bonds_purchased;
    }
    bond_account.bonds.epoch = epoch;
    bond_account.bonds.interest_rate = rate;
    bond_account.bonds.amount = bond_account.bonds.amount + amount;
    singleton.bonds_purchased(amount);
    Ok(())
}

} // verus!
