//! Bond issuance totals and the bonds of one position.

use vstd::prelude::*;

verus! {

/// Stores bond specific data.
#[derive(Debug, Clone, Copy)]
pub struct BondStorage {
    /// How many bonds are still available to purchase.
    pub available_bonds: u64,
    /// The number of bonds purchased this epoch.
    pub bonds_purchased: u64,
    /// The total number of bonds ever purchased.
    pub total_bonds_purchased: u64,
    /// The total number of bonds ever redeemed.
    pub redeemed: u64,
    /// The total number of bonds that have ever been redeemable, including
    /// previously redeemed bonds.
    pub redeemable_index: u64,
}

impl Default for BondStorage {
    /// The pool with nothing available, purchased or redeemed.
    fn default() -> (r: Self)
        ensures
            r == (BondStorage {
                available_bonds: 0,
                bonds_purchased: 0,
                total_bonds_purchased: 0,
                redeemed: 0,
                redeemable_index: 0,
            }),
    {
        Self {
            available_bonds: 0,
            bonds_purchased: 0,
            total_bonds_purchased: 0,
            redeemed: 0,
            redeemable_index: 0,
        }
    }
}

impl BondStorage {
    /// Whether `amount` bonds can be purchased: they must be available, and
    /// the two purchase counters must be able to take them.
    pub open spec fn can_take(&self, amount: u64) -> bool {
        &&& amount <= self.available_bonds
        &&& self.bonds_purchased + amount <= u64::MAX
        &&& self.total_bonds_purchased + amount <= u64::MAX
    }

    /// The pool after `amount` bonds were purchased: they leave the
    /// available bonds and join both purchase counters.
    pub open spec fn after_purchase(&self, amount: u64) -> BondStorage {
        BondStorage {
            available_bonds: (self.available_bonds - amount) as u64,
            bonds_purchased: (self.bonds_purchased + amount) as u64,
            total_bonds_purchased: (self.total_bonds_purchased + amount) as u64,
            redeemed: self.redeemed,
            redeemable_index: self.redeemable_index,
        }
    }

    /// Whether one successful purchase leads from `self` to `after`.
    pub open spec fn purchase_step(&self, after: &BondStorage) -> bool {
        exists|amount: u64| #[trigger] self.can_take(amount) && *after == self.after_purchase(amount)
    }
}

/// Whether each pool of the sequence comes from the one before it by a
/// successful purchase.
pub open spec fn purchase_history(pools: Seq<BondStorage>) -> bool {
    forall|i: int| 0 <= i < pools.len() - 1 ==> (#[trigger] pools[i]).purchase_step(&pools[i + 1])
}

/// Pool depletion: over any sequence of successful purchases, what left the
/// available bonds is what joined the purchase counters, and the available
/// bonds never grew nor went below zero.
pub proof fn lemma_pool_depletion(pools: Seq<BondStorage>)
    requires
        pools.len() > 0,
        purchase_history(pools),
    ensures
        pools.first().available_bonds - pools.last().available_bonds
            == pools.last().total_bonds_purchased - pools.first().total_bonds_purchased,
        pools.first().available_bonds - pools.last().available_bonds
            == pools.last().bonds_purchased - pools.first().bonds_purchased,
        0 <= pools.last().available_bonds <= pools.first().available_bonds,
        pools.last().redeemed == pools.first().redeemed,
        pools.last().redeemable_index == pools.first().redeemable_index,
    decreases pools.len(),
{
    if pools.len() > 1 {
        let earlier = pools.drop_last();
        assert forall|i: int| 0 <= i < earlier.len() - 1 implies (#[trigger] earlier[i]).purchase_step(
            &earlier[i + 1],
        ) by {
            assert(earlier[i] == pools[i]);
            assert(earlier[i + 1] == pools[i + 1]);
            assert(pools[i].purchase_step(&pools[i + 1]));
        }
        lemma_pool_depletion(earlier);
        let n = pools.len() - 1;
        assert(earlier.last() == pools[n - 1]);
        assert(earlier.first() == pools.first());
        assert(pools[n - 1].purchase_step(&pools[n]));
    }
}

/// Stores information on user purchased bonds.
#[derive(Debug, Clone, Copy)]
pub struct UserBondStorage {
    /// The amount of bonds purchased in `epoch`.
    pub amount: u64,
    /// The epoch number of bond issuance.
    pub epoch: u64,
    /// The interest rate at the time of purchase.
    pub interest_rate: u64,
}

impl UserBondStorage {
    /// The bonds of a position.
    pub fn new(amount: u64, epoch: u64, interest_rate: u64) -> (r: Self)
        ensures
            r == (UserBondStorage { amount, epoch, interest_rate }),
    {
        Self { amount, epoch, interest_rate }
    }
}

} // verus!
