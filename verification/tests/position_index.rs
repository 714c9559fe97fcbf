use bank_of_sol::errors::ErrorCode;
use bank_of_sol::state::bond_account::BondAccount;
use bank_of_sol::state::bond_account::BondAccountsStore;
use bank_of_sol::state::nft_stake_record::StakeRecord;
use bank_of_sol::state::nft_stake_record::StakeRecordIndex;
use bank_of_sol::state::position_index::PositionIndex;
use bank_of_sol::types::clock::Clock;
use anchor_lang::prelude::Pubkey;

#[test]
fn is_valid_seed_is_the_range_above_the_offset() {
    for offset in 0..4u64 {
        for count in 0..4u64 {
            let ledger = PositionIndex::new(count, offset, 0);
            for seed in 0..10u64 {
                assert_eq!(ledger.is_valid_seed(seed), offset < seed && seed <= offset + count);
            }
        }
    }
}

#[test]
fn is_valid_seed_at_the_edge_of_64_bits() {
    let ledger = PositionIndex::new(u64::MAX, u64::MAX - 1, 0);
    assert!(ledger.is_valid_seed(u64::MAX));
    assert!(!ledger.is_valid_seed(u64::MAX - 1));
    let ledger = PositionIndex::new(5, u64::MAX, 0);
    assert!(!ledger.is_valid_seed(u64::MAX));
    assert!(!ledger.is_valid_seed(0));
}

#[test]
fn create_returns_the_next_seed_and_counts_it() {
    let mut ledger = PositionIndex::new(0, 1, 3);
    assert_eq!(ledger.create(), Ok(2));
    assert_eq!((ledger.count, ledger.offset, ledger.bump), (1, 1, 3));
    assert_eq!(ledger.create(), Ok(3));
    assert_eq!((ledger.count, ledger.offset, ledger.bump), (2, 1, 3));
    assert!(ledger.is_valid_seed(2) && ledger.is_valid_seed(3) && !ledger.is_valid_seed(4));
}

#[test]
fn create_fails_where_the_seed_leaves_64_bits() {
    let mut ledger = PositionIndex::new(4, u64::MAX - 4, 0);
    assert_eq!(ledger.create(), Err(ErrorCode::MathOverflow));
    assert_eq!((ledger.count, ledger.offset), (4, u64::MAX - 4));
    let mut ledger = PositionIndex::new(u64::MAX, 7, 0);
    assert_eq!(ledger.create(), Err(ErrorCode::MathOverflow));
    assert_eq!((ledger.count, ledger.offset), (u64::MAX, 7));
    let mut ledger = PositionIndex::new(3, u64::MAX - 4, 0);
    assert_eq!(ledger.create(), Ok(u64::MAX));
}

#[test]
fn close_oldest_on_an_empty_ledger_fails() {
    let mut ledger = PositionIndex::new(0, 5, 1);
    assert_eq!(ledger.close_oldest(), Err(ErrorCode::MathOverflow));
    assert_eq!((ledger.count, ledger.offset, ledger.bump), (0, 5, 1));
}

#[test]
fn close_oldest_moves_the_range_up() {
    let mut ledger = PositionIndex::new(2, 5, 1);
    assert!(ledger.is_oldest_seed(6));
    assert!(!ledger.is_oldest_seed(7));
    assert_eq!(ledger.close_oldest(), Ok(()));
    assert_eq!((ledger.count, ledger.offset, ledger.bump), (1, 6, 1));
    assert!(!ledger.is_valid_seed(6));
    assert!(ledger.is_valid_seed(7));
    assert!(ledger.is_oldest_seed(7));
    assert_eq!(ledger.close_oldest(), Ok(()));
    assert_eq!(ledger.close_oldest(), Err(ErrorCode::MathOverflow));
    assert!(!ledger.is_oldest_seed(8));
}

#[test]
fn seeds_are_given_out_once_in_rising_order() {
    let mut ledger = PositionIndex::new(0, 0, 0);
    let mut last = 0;
    for round in 0..20 {
        let seed = ledger.create().unwrap();
        assert!(seed > last);
        last = seed;
        if round % 3 == 0 {
            ledger.close_oldest().unwrap();
        }
    }
}

#[test]
fn bond_accounts_store_follows_the_ledger() {
    let mut store = BondAccountsStore::init(0, 1, 9);
    assert_eq!((store.number_of_accounts, store.offset, store.bump), (0, 1, 9));
    assert_eq!(store.get_offset(), 1);
    assert_eq!(store.get_index_of_accounts(), 1);
    assert!(!store.is_valid_seed(1));
    assert!(!store.is_valid_seed(2));
    assert_eq!(store.create(), Ok(2));
    assert!(store.is_valid_seed(2));
    assert_eq!(store.get_index_of_accounts(), 2);
    store.increment();
    assert_eq!(store.number_of_accounts, 2);
    assert!(store.is_valid_seed(3));
    assert_eq!(store.pda_closed(), Ok(()));
    assert_eq!((store.number_of_accounts, store.offset, store.bump), (1, 2, 9));
    assert!(!store.is_valid_seed(2));
    assert!(store.is_valid_seed(3));
    assert_eq!(store.pda_closed(), Ok(()));
    assert_eq!(store.pda_closed(), Err(ErrorCode::MathOverflow));
    assert_eq!((store.number_of_accounts, store.offset, store.bump), (0, 3, 9));
}

#[test]
fn stake_record_index_follows_the_ledger() {
    let mut index = StakeRecordIndex::init(4);
    assert_eq!((index.index, index.offset, index.bump), (0, 0, 4));
    assert_eq!(index.pda_closed(), Err(ErrorCode::MathOverflow));
    assert_eq!(index.create(), Ok(1));
    assert_eq!(index.create(), Ok(2));
    assert_eq!(index.get_index_of_accounts(), 2);
    assert_eq!(index.get_offset(), 0);
    assert!(index.is_valid_seed(1) && index.is_valid_seed(2) && !index.is_valid_seed(3));
    assert!(index.is_oldest_seed(1) && !index.is_oldest_seed(2));
    assert_eq!(index.pda_closed(), Ok(()));
    assert_eq!((index.index, index.offset, index.bump), (1, 1, 4));
    assert!(!index.is_valid_seed(1) && index.is_valid_seed(2));
    assert_eq!(index.get_offset(), 1);
}

#[test]
fn record_lengths() {
    assert_eq!(BondAccountsStore::LEN, 25);
    assert_eq!(BondAccount::LEN, 65);
    assert_eq!(StakeRecordIndex::LEN, 25);
    assert_eq!(StakeRecord::LEN, 89);
}

#[test]
fn bond_account_init_keeps_what_it_is_given() {
    let user = Pubkey::new_from_array([7; 32]);
    let account = BondAccount::init(user, 3, 10, 4, 250, 99);
    assert_eq!(account.user, user);
    assert_eq!(
        (account.bonds.amount, account.bonds.epoch, account.bonds.interest_rate),
        (10, 4, 250)
    );
    assert_eq!((account.index, account.bump), (99, 3));
}

#[test]
fn stake_record_init_is_dated_with_the_clock() {
    let staker = Pubkey::new_from_array([1; 32]);
    let nft_mint = Pubkey::new_from_array([2; 32]);
    let record = StakeRecord::init(staker, nft_mint, 6, 250, &Clock { slot: 3, unix_timestamp: 777 });
    assert_eq!(record.staker, staker);
    assert_eq!(record.nft_mint, nft_mint);
    assert_eq!((record.staked_epoch, record.staked_at, record.bump), (6, 777, 250));
}
