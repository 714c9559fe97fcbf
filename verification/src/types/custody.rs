//! The token custody accounts of the treasury.

use anchor_lang::prelude::Pubkey;
use vstd::prelude::*;

verus! {

/// Addresses of the accounts that hold the treasury's tokens.
#[derive(Debug, Clone, Copy)]
pub struct CustodyAccounts {
    /// Custody of the unit token.
    pub unit_custody: Pubkey,
    /// Custody of the unit/USDC liquidity-pool token.
    pub unit_usdc_lp_custody: Pubkey,
}

impl CustodyAccounts {
    /// The custody record made of the two addresses.
    pub fn init(unit_custody: Pubkey, unit_usdc_lp_custody: Pubkey) -> (r: Self)
        ensures
            r == (CustodyAccounts { unit_custody, unit_usdc_lp_custody }),
    {
        Self { unit_custody, unit_usdc_lp_custody }
    }
}

} // verus!
