//! Creation of the treasury.

use crate::errors::ErrorCode;
use crate::state::singleton::Singleton;
use crate::types::clock::Clock;
use crate::types::epoch::Epoch;
use anchor_lang::prelude::Pubkey;
use vstd::prelude::*;

verus! {

/// Creates the treasury, at epoch zero begun at the clock's time and slot.
/// A negative minimum stake period is refused with `NegativePeriodValue`.
/// Before the treasury is stored the caller hands the unit mint's authority
/// to `token_authority`.
pub fn initialize_handler(
    authority: Pubkey,
    pool: Pubkey,
    unit_mint: Pubkey,
    token_authority: Pubkey,
    unit_custody: Pubkey,
    unit_usdc_lp_custody: Pubkey,
    unit_auth_bump: u8,
    bump: u8,
    clock: &Clock,
    minimum_period: i64,
) -> (r: Result<Singleton, ErrorCode>)
    ensures
        minimum_period < 0 ==> r == Err::<Singleton, ErrorCode>(ErrorCode::NegativePeriodValue),
        minimum_period >= 0 ==> r.is_ok() && r.unwrap().is_fresh(
            authority,
            pool,
            Epoch {
                index: 0,
                timestamp: clock.unix_timestamp,
                slot: clock.slot,
                above_peg: true,
                base_rate: 0,
            },
            unit_mint,
            token_authority,
            unit_custody,
            unit_usdc_lp_custody,
            unit_auth_bump,
            bump,
        ),
{
    if minimum_period < 0 {
        return Err(ErrorCode::NegativePeriodValue);
    }
    Ok(
        Singleton::init(
            authority,
            pool,
            Epoch::init(clock),
            unit_mint,
            token_authority,
            unit_custody,
            unit_usdc_lp_custody,
            unit_auth_bump,
            bump,
        ),
    )
}

} // verus!
