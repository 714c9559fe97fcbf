//! Withdrawal of units from a boardroom account's staged balance.

use crate::errors::ErrorCode;
use crate::state::boardroom::BoardroomAccount;
use crate::state::singleton::Singleton;
use crate::types::boardroom::BoardroomBalances;
use vstd::prelude::*;

verus! {

/// How a withdrawal ends: a fluid account is refused, and so is an amount
/// beyond the account's staged balance or the treasury's total.
pub open spec fn withdraw_outcome(
    singleton: Singleton,
    boardroom_account: BoardroomAccount,
    amount: u64,
) -> Result<(), ErrorCode> {
    if !boardroom_account.frozen_or_locked() {
        Err(ErrorCode::InvalidAccountStatus)
    } else if amount > boardroom_account.staged_balance || amount
        > singleton.boardroom_deposits.total_deposited_units {
        Err(ErrorCode::MathOverflow)
    } else {
        Ok(())
    }
}

/// Takes `amount` units from the staged balance of a frozen or locked
/// account and from the treasury's total. On success the caller moves
/// `amount` units from custody to the depositor. On failure nothing changes.
pub fn boardroom_withdraw_handler(
    singleton: &mut Singleton,
    boardroom_account: &mut BoardroomAccount,
    amount: u64,
) -> (r: Result<(), ErrorCode>)
    ensures
        r == withdraw_outcome(*old(singleton), *old(boardroom_account), amount),
        r.is_ok() ==> *final(boardroom_account) == (BoardroomAccount {
            staged_balance: (old(boardroom_account).staged_balance - amount) as u64,
            ..*old(boardroom_account)
        }) && *final(singleton) == (Singleton {
            boardroom_deposits: BoardroomBalances {
                total_deposited_units: (old(singleton).boardroom_deposits.total_deposited_units
                    - amount) as u64,
            },
            ..*old(singleton)
        }),
        r.is_err() ==> *final(boardroom_account) == *old(boardroom_account) && *final(singleton)
            == *old(singleton),
{
    if boardroom_account.only_frozen_or_locked() == false {
        return Err(ErrorCode::InvalidAccountStatus);
    }
    if amount > boardroom_account.staged_balance || amount
        > singleton.boardroom_deposits.total_deposited_units {
        return Err(ErrorCode::MathOverflow);
    }
    boardroom_account.decrement_balance_of_staged(amount);
    singleton.decrement_total_balance_of_staged(amount);
    Ok(())
}

} // verus!
