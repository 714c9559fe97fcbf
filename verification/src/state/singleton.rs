//! The treasury: the one record that every operation reads or writes.

use crate::errors::ErrorCode;
use crate::types::boardroom::BoardroomBalances;
use crate::types::bond::BondStorage;
use crate::types::clock::Clock;
use crate::types::custody::CustodyAccounts;
use crate::types::epoch::Epoch;
use crate::types::nft_staking::NFTStakingStorage;
use crate::types::oracle::PriceStorage;
use crate::types::pubkey::is_default_pubkey;
use crate::utils::math::mul_div_floor;
use crate::utils::math::mul_div_floor_spec;
use anchor_lang::prelude::Pubkey;
use vstd::prelude::*;

verus! {

/// One percent, in the unit that interest rates are given in.
pub const INTEREST_RATE_PRECISION: u64 = 1_000_000;

/// One hundred percent, in the unit that interest rates are given in.
pub const ONE_HUNDRED_PCT: u64 = 100 * INTEREST_RATE_PRECISION;

/// The treasury.
#[derive(Debug, Clone, Copy)]
pub struct Singleton {
    /// Authority of the bank, which can be a multi-sig.
    pub authority: Pubkey,
    /// The pool that the oracle reads.
    pub pool: Pubkey,
    /// The current epoch.
    pub epoch: Epoch,
    /// The last five price observations.
    pub price_observations: PriceStorage,
    /// Bond info.
    pub bonds: BondStorage,
    /// NFT staking info.
    pub nft_staking: NFTStakingStorage,
    /// Unit token mint.
    pub unit_mint: Pubkey,
    /// Unit token authority.
    pub token_authority: Pubkey,
    /// The token custody accounts.
    pub custody: CustodyAccounts,
    /// Total deposits into the boardroom.
    pub boardroom_deposits: BoardroomBalances,
    /// The bump of `token_authority`.
    pub unit_auth_bump: u8,
    /// The bump of the treasury's address.
    pub bump: u8,
}

/// The bonds that `units` buy at `rate`: the units plus the interest on
/// them, `units * (rate + 100%) / 100%`, rounded down.
pub open spec fn bonds_for(units: u64, rate: u64) -> int {
    units * (rate + ONE_HUNDRED_PCT) / (ONE_HUNDRED_PCT as int)
}

/// What `units_to_bonds` returns at `rate`. A rate that, with one hundred
/// percent added, leaves 64 bits is an overflow; bonds that leave 64 bits
/// fail to convert.
pub open spec fn units_to_bonds_spec(units: u64, rate: u64) -> Result<u64, ErrorCode> {
    if rate + ONE_HUNDRED_PCT > u64::MAX {
        Err(ErrorCode::MathOverflow)
    } else if bonds_for(units, rate) > u64::MAX {
        Err(ErrorCode::ConversionFailure)
    } else {
        Ok(bonds_for(units, rate) as u64)
    }
}

impl Singleton {
    /// Bytes that the record takes in storage.
    pub const LEN: usize = 8 + 32 + 32 + 40 + 200 + 40 + 80 + 32 + 32 + 64 + 1 + 1;

    /// Whether this is the treasury as it is created: the given addresses,
    /// epoch and bumps, an empty price window, an empty bond pool, staking
    /// switched off with all-zero addresses, and nothing deposited.
    pub open spec fn is_fresh(
        &self,
        authority: Pubkey,
        pool: Pubkey,
        epoch: Epoch,
        unit_mint: Pubkey,
        token_authority: Pubkey,
        unit_custody: Pubkey,
        unit_usdc_lp_custody: Pubkey,
        unit_auth_bump: u8,
        bump: u8,
    ) -> bool {
        &&& self.authority == authority
        &&& self.pool == pool
        &&& self.epoch == epoch
        &&& self.price_observations@ == PriceStorage::empty_window()
        &&& self.bonds == (BondStorage {
            available_bonds: 0,
            bonds_purchased: 0,
            total_bonds_purchased: 0,
            redeemed: 0,
            redeemable_index: 0,
        })
        &&& !self.nft_staking.status
        &&& is_default_pubkey(self.nft_staking.authority)
        &&& is_default_pubkey(self.nft_staking.collection)
        &&& self.nft_staking.minimum_period == 0
        &&& self.nft_staking.bump == 0
        &&& self.nft_staking.nft_auth_bump == 0
        &&& self.unit_mint == unit_mint
        &&& self.token_authority == token_authority
        &&& self.custody == (CustodyAccounts { unit_custody, unit_usdc_lp_custody })
        &&& self.boardroom_deposits == (BoardroomBalances { total_deposited_units: 0 })
        &&& self.unit_auth_bump == unit_auth_bump
        &&& self.bump == bump
    }

    /// A new treasury.
    pub fn init(
        authority: Pubkey,
        pool: Pubkey,
        epoch: Epoch,
        unit_mint: Pubkey,
        token_authority: Pubkey,
        unit_custody: Pubkey,
        unit_usdc_lp_custody: Pubkey,
        unit_auth_bump: u8,
        bump: u8,
    ) -> (r: Self)
        ensures
            r.is_fresh(
                authority,
                pool,
                epoch,
                unit_mint,
                token_authority,
                unit_custody,
                unit_usdc_lp_custody,
                unit_auth_bump,
                bump,
            ),
    {
        Self {
            authority,
            pool,
            epoch,
            price_observations: PriceStorage::default(),
            bonds: BondStorage::default(),
            nft_staking: NFTStakingStorage::default(),
            unit_mint,
            token_authority,
            custody: CustodyAccounts::init(unit_custody, unit_usdc_lp_custody),
            boardroom_deposits: BoardroomBalances::default(),
            unit_auth_bump,
            bump,
        }
    }

    /// Moves the treasury to its next epoch, once an hour has passed since
    /// the current one began. On failure the treasury is left as it was.
    pub fn advance(&mut self, clock: &Clock, above_peg: bool, base_rate: u64) -> (r: Result<
        (),
        ErrorCode,
    >)
        ensures
            match old(self).epoch.advance_spec(clock, above_peg, base_rate) {
                Ok(next) => r == Ok::<(), ErrorCode>(()) && *final(self) == (Singleton {
                    epoch: next,
                    ..*old(self)
                }),
                Err(e) => r == Err::<(), ErrorCode>(e) && *final(self) == *old(self),
            },
    {
        match self.epoch.advance(clock, above_peg, base_rate) {
            Ok(next) => {
                self.epoch = next;
                Ok(())
            },
            Err(e) => Err(e),
        }
    }

    /// The interest rate of the current epoch.
    pub fn interest_rate(&self) -> (r: u64)
        ensures
            r == self.epoch.base_rate,
    {
        self.epoch.base_rate
    }

    /// The index of the current epoch.
    pub fn epoch(&self) -> (r: u64)
        ensures
            r == self.epoch.index,
    {
        self.epoch.index
    }

    /// The bonds that `units` buy at the current rate.
    pub fn units_to_bonds(&self, units: u64) -> (r: Result<u64, ErrorCode>)
        ensures
            r == units_to_bonds_spec(units, self.epoch.base_rate),
    {
        let growth: u64 = match self.interest_rate().checked_add(ONE_HUNDRED_PCT) {
            Some(growth) => growth,
            None => {
                return Err(ErrorCode::MathOverflow);
            },
        };
        assert(mul_div_floor_spec(units, growth, ONE_HUNDRED_PCT) == bonds_for(
            units,
            self.epoch.base_rate,
        ));
        match mul_div_floor(units, growth, ONE_HUNDRED_PCT) {
            Some(bonds) => Ok(bonds),
            None => Err(ErrorCode::ConversionFailure),
        }
    }

    /// Records the purchase of `amount` bonds in the pool.
    pub fn bonds_purchased(&mut self, amount: u64)
        requires
            old(self).bonds.can_take(amount),
        ensures
            *final(self) == (Singleton {
                bonds: old(self).bonds.after_purchase(amount),
                ..*old(self)
            }),
    {
        self.bonds.bonds_purchased = self.bonds.bonds_purchased + amount;
        self.bonds.total_bonds_purchased = self.bonds.total_bonds_purchased + amount;
        self.bonds.available_bonds = self.bonds.available_bonds - amount;
    }

    /// Adds `amount` to the units staged in the boardroom.
    pub fn increment_total_balance_of_staged(&mut self, amount: u64)
        requires
            old(self).boardroom_deposits.total_deposited_units + amount <= u64::MAX,
        ensures
            *final(self) == (Singleton {
                boardroom_deposits: BoardroomBalances {
                    total_deposited_units: (old(self).boardroom_deposits.total_deposited_units
                        + amount) as u64,
                },
                ..*old(self)
            }),
    {
        self.boardroom_deposits.total_deposited_units =
            self.boardroom_deposits.total_deposited_units + amount;
    }

    /// Takes `amount` from the units staged in the boardroom.
    pub fn decrement_total_balance_of_staged(&mut self, amount: u64)
        requires
            amount <= old(self).boardroom_deposits.total_deposited_units,
        ensures
            *final(self) == (Singleton {
                boardroom_deposits: BoardroomBalances {
                    total_deposited_units: (old(self).boardroom_deposits.total_deposited_units
                        - amount) as u64,
                },
                ..*old(self)
            }),
    {
        self.boardroom_deposits.total_deposited_units =
            self.boardroom_deposits.total_deposited_units - amount;
    }
}

} // verus!
