//! Deposit of units into a boardroom account's staged balance.

use crate::errors::ErrorCode;
use crate::state::boardroom::BoardroomAccount;
use crate::state::singleton::Singleton;
use crate::types::boardroom::BoardroomBalances;
use vstd::prelude::*;

verus! {

/// How a deposit ends: a fluid account is refused, and so is an amount that
/// the account's or the treasury's balance cannot take.
pub open spec fn deposit_outcome(
    singleton: Singleton,
    boardroom_account: BoardroomAccount,
    amount: u64,
) -> Result<(), ErrorCode> {
    if !boardroom_account.frozen_or_locked() {
        Err(ErrorCode::InvalidAccountStatus)
    } else if boardroom_account.staged_balance + amount > u64::MAX
        || singleton.boardroom_deposits.total_deposited_units + amount > u64::MAX {
        Err(ErrorCode::MathOverflow)
    } else {
        Ok(())
    }
}

/// Stages `amount` units in a frozen or locked account and in the
/// treasury's total. On success the caller moves `amount` units from the
/// depositor into custody. On failure nothing changes.
pub fn boardroom_deposit_handler(
    singleton: &mut Singleton,
    boardroom_account: &mut BoardroomAccount,
    amount: u64,
) -> (r: Result<(), ErrorCode>)
    ensures
        r == deposit_outcome(*old(singleton), *old(boardroom_account), amount),
        r.is_ok() ==> *final(boardroom_account) == (BoardroomAccount {
            staged_balance: (old(boardroom_account).staged_balance + amount) as u64,
            ..*old(boardroom_account)
        }) && *final(singleton) == (Singleton {
            boardroom_deposits: BoardroomBalances {
                total_deposited_units: (old(singleton).boardroom_deposits.total_deposited_units
                    + amount) as u64,
            },
            ..*old(singleton)
        }),
        r.is_err() ==> *final(boardroom_account) == *old(boardroom_account) && *final(singleton)
            == *old(singleton),
{
    if boardroom_account.only_frozen_or_locked() == false {
        return Err(ErrorCode::InvalidAccountStatus);
    }
    if amount > u64::MAX - boardroom_account.staged_balance || amount > u64::MAX
        - singleton.boardroom_deposits.total_deposited_units {
        return Err(ErrorCode::MathOverflow);
    }
    boardroom_account.increment_balance_of_staged(amount);
    singleton.increment_total_balance_of_staged(amount);
    Ok(())
}

} // verus!
