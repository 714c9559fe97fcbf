use bank_of_sol::errors::ErrorCode;
use bank_of_sol::instructions::initialize::initialize_handler;
use bank_of_sol::state::singleton::Singleton;
use bank_of_sol::state::singleton::INTEREST_RATE_PRECISION;
use bank_of_sol::state::singleton::ONE_HUNDRED_PCT;
use bank_of_sol::types::boardroom::BoardroomBalances;
use bank_of_sol::types::boardroom::BoardroomStatus;
use bank_of_sol::types::bond::BondStorage;
use bank_of_sol::types::bond::UserBondStorage;
use bank_of_sol::types::clock::Clock;
use bank_of_sol::types::custody::CustodyAccounts;
use bank_of_sol::types::epoch::Epoch;
use bank_of_sol::types::nft_staking::reward_policy;
use bank_of_sol::types::nft_staking::NFTStakingStorage;
use bank_of_sol::types::nft_staking::REWARD_UNITS;
use anchor_lang::prelude::Pubkey;

fn key(byte: u8) -> Pubkey {
    Pubkey::new_from_array([byte; 32])
}

fn treasury_at(clock: &Clock) -> Singleton {
    Singleton::init(key(1), key(2), Epoch::init(clock), key(3), key(4), key(5), key(6), 254, 253)
}

#[test]
fn singleton_init_sets_up_an_empty_treasury() {
    let singleton = treasury_at(&Clock { slot: 10, unix_timestamp: 500 });
    assert_eq!(singleton.authority, key(1));
    assert_eq!(singleton.pool, key(2));
    assert_eq!(singleton.unit_mint, key(3));
    assert_eq!(singleton.token_authority, key(4));
    assert_eq!(singleton.custody.unit_custody, key(5));
    assert_eq!(singleton.custody.unit_usdc_lp_custody, key(6));
    assert_eq!((singleton.unit_auth_bump, singleton.bump), (254, 253));
    assert_eq!((singleton.epoch.index, singleton.epoch.timestamp, singleton.epoch.slot), (0, 500, 10));
    assert_eq!((singleton.epoch.above_peg, singleton.epoch.base_rate), (true, 0));
    assert_eq!(singleton.epoch(), 0);
    assert_eq!(singleton.interest_rate(), 0);
    let bonds = &singleton.bonds;
    assert_eq!(
        (
            bonds.available_bonds,
            bonds.bonds_purchased,
            bonds.total_bonds_purchased,
            bonds.redeemed,
            bonds.redeemable_index
        ),
        (0, 0, 0, 0, 0)
    );
    assert_eq!(singleton.boardroom_deposits.total_deposited_units, 0);
    assert!(!singleton.nft_staking.status);
    assert_eq!(singleton.nft_staking.authority, Pubkey::default());
    assert_eq!(singleton.nft_staking.collection, Pubkey::default());
    assert_eq!(singleton.nft_staking.authority.to_bytes(), [0u8; 32]);
    assert_eq!(singleton.nft_staking.minimum_period, 0);
    assert_eq!((singleton.nft_staking.bump, singleton.nft_staking.nft_auth_bump), (0, 0));
    for observation in singleton.price_observations.observations.iter() {
        assert_eq!((observation.price.value, observation.price.exp), (0, 0));
        assert_eq!((observation.last_updated_slot, observation.unix_timestamp), (0, 0));
    }
}

#[test]
fn singleton_len() {
    assert_eq!(Singleton::LEN, 562);
}

#[test]
fn rate_constants() {
    assert_eq!(INTEREST_RATE_PRECISION, 1_000_000);
    assert_eq!(ONE_HUNDRED_PCT, 100_000_000);
}

#[test]
fn initialize_refuses_a_negative_period() {
    let clock = Clock { slot: 10, unix_timestamp: 500 };
    let r = initialize_handler(key(1), key(2), key(3), key(4), key(5), key(6), 9, 8, &clock, -1);
    assert_eq!(r.unwrap_err(), ErrorCode::NegativePeriodValue);
    let r = initialize_handler(key(1), key(2), key(3), key(4), key(5), key(6), 9, 8, &clock, i64::MIN);
    assert_eq!(r.unwrap_err(), ErrorCode::NegativePeriodValue);
}

#[test]
fn initialize_creates_the_treasury_at_epoch_zero() {
    let clock = Clock { slot: 10, unix_timestamp: 500 };
    let singleton =
        initialize_handler(key(1), key(2), key(3), key(4), key(5), key(6), 9, 8, &clock, 0).unwrap();
    assert_eq!(singleton.authority, key(1));
    assert_eq!(singleton.pool, key(2));
    assert_eq!(singleton.unit_mint, key(3));
    assert_eq!(singleton.token_authority, key(4));
    assert_eq!(singleton.custody.unit_custody, key(5));
    assert_eq!(singleton.custody.unit_usdc_lp_custody, key(6));
    assert_eq!((singleton.unit_auth_bump, singleton.bump), (9, 8));
    assert_eq!((singleton.epoch.index, singleton.epoch.timestamp, singleton.epoch.slot), (0, 500, 10));
    assert_eq!(singleton.bonds.available_bonds, 0);
    assert_eq!(singleton.bonds.total_bonds_purchased, 0);
    let with_period =
        initialize_handler(key(1), key(2), key(3), key(4), key(5), key(6), 9, 8, &clock, 30).unwrap();
    assert_eq!(with_period.epoch.index, 0);
}

#[test]
fn singleton_advance_moves_to_the_next_epoch() {
    let mut singleton = treasury_at(&Clock { slot: 10, unix_timestamp: 500 });
    let early = Clock { slot: 11, unix_timestamp: 4_099 };
    assert_eq!(singleton.advance(&early, false, 10), Err(ErrorCode::EpochNotAdvanceable));
    assert_eq!((singleton.epoch.index, singleton.epoch.timestamp, singleton.epoch.slot), (0, 500, 10));
    assert_eq!((singleton.epoch.above_peg, singleton.epoch.base_rate), (true, 0));
    let on_time = Clock { slot: 12, unix_timestamp: 4_100 };
    assert_eq!(singleton.advance(&on_time, false, 10), Ok(()));
    assert_eq!((singleton.epoch.index, singleton.epoch.timestamp, singleton.epoch.slot), (1, 4_100, 12));
    assert_eq!((singleton.epoch.above_peg, singleton.epoch.base_rate), (false, 10));
    assert_eq!(singleton.epoch(), 1);
    assert_eq!(singleton.interest_rate(), 10);
    assert_eq!(singleton.authority, key(1));
    assert_eq!(singleton.advance(&on_time, true, 0), Err(ErrorCode::EpochNotAdvanceable));
}

#[test]
fn units_to_bonds_at_rate_zero() {
    let singleton = treasury_at(&Clock { slot: 0, unix_timestamp: 0 });
    assert_eq!(singleton.units_to_bonds(1000), Ok(1000));
    assert_eq!(singleton.units_to_bonds(0), Ok(0));
    assert_eq!(singleton.units_to_bonds(u64::MAX), Ok(u64::MAX));
}

#[test]
fn units_to_bonds_at_one_percent() {
    let mut singleton = treasury_at(&Clock { slot: 0, unix_timestamp: 0 });
    singleton.epoch.base_rate = 1_000_000;
    assert_eq!(singleton.units_to_bonds(1000), Ok(1010));
    assert_eq!(singleton.units_to_bonds(99), Ok(99));
    assert_eq!(singleton.units_to_bonds(100), Ok(101));
    assert_eq!(singleton.units_to_bonds(199), Ok(200));
}

#[test]
fn units_to_bonds_rounds_down() {
    let mut singleton = treasury_at(&Clock { slot: 0, unix_timestamp: 0 });
    singleton.epoch.base_rate = 2_500_000;
    // 2.5% of 39 is 0.975.
    assert_eq!(singleton.units_to_bonds(39), Ok(39));
    assert_eq!(singleton.units_to_bonds(40), Ok(41));
    // The product is taken in 128 bits.
    assert_eq!(
        singleton.units_to_bonds(10_000_000_000_000_000_000),
        Ok(10_250_000_000_000_000_000)
    );
}

#[test]
fn units_to_bonds_beyond_64_bits_fails_to_convert() {
    let mut singleton = treasury_at(&Clock { slot: 0, unix_timestamp: 0 });
    singleton.epoch.base_rate = 1_000_000;
    assert_eq!(singleton.units_to_bonds(u64::MAX), Err(ErrorCode::ConversionFailure));
    let units = u64::MAX / 101 * 100;
    let exact = units as u128 * 101_000_000 / 100_000_000;
    assert_eq!(exact, 18_446_744_073_709_551_537);
    assert_eq!(singleton.units_to_bonds(units), Ok(18_446_744_073_709_551_537));
}

#[test]
fn units_to_bonds_with_a_rate_at_the_edge_of_64_bits_overflows() {
    let mut singleton = treasury_at(&Clock { slot: 0, unix_timestamp: 0 });
    singleton.epoch.base_rate = u64::MAX - 99_999_999;
    assert_eq!(singleton.units_to_bonds(1), Err(ErrorCode::MathOverflow));
    assert_eq!(singleton.units_to_bonds(0), Err(ErrorCode::MathOverflow));
    singleton.epoch.base_rate = u64::MAX - 100_000_000;
    assert_eq!(singleton.units_to_bonds(0), Ok(0));
    assert_eq!(singleton.units_to_bonds(1), Ok(184_467_440_737));
}

#[test]
fn bonds_purchased_moves_bonds_out_of_the_pool() {
    let mut singleton = treasury_at(&Clock { slot: 0, unix_timestamp: 0 });
    singleton.bonds.available_bonds = 500;
    singleton.bonds.total_bonds_purchased = 40;
    singleton.bonds_purchased(120);
    assert_eq!(singleton.bonds.available_bonds, 380);
    assert_eq!(singleton.bonds.bonds_purchased, 120);
    assert_eq!(singleton.bonds.total_bonds_purchased, 160);
}

#[test]
fn total_balance_of_staged_goes_up_and_down() {
    let mut singleton = treasury_at(&Clock { slot: 0, unix_timestamp: 0 });
    singleton.increment_total_balance_of_staged(70);
    singleton.increment_total_balance_of_staged(5);
    assert_eq!(singleton.boardroom_deposits.total_deposited_units, 75);
    singleton.decrement_total_balance_of_staged(75);
    assert_eq!(singleton.boardroom_deposits.total_deposited_units, 0);
}

#[test]
fn small_types_are_built_from_their_parts() {
    let custody = CustodyAccounts::init(key(8), key(9));
    assert_eq!(custody.unit_custody, key(8));
    assert_eq!(custody.unit_usdc_lp_custody, key(9));
    let bonds = UserBondStorage::new(5, 6, 7);
    assert_eq!((bonds.amount, bonds.epoch, bonds.interest_rate), (5, 6, 7));
    let pool = BondStorage::default();
    assert_eq!(pool.available_bonds + pool.bonds_purchased + pool.total_bonds_purchased, 0);
    assert_eq!(pool.redeemed + pool.redeemable_index, 0);
    assert_eq!(BoardroomBalances::default().total_deposited_units, 0);
    assert!(matches!(BoardroomStatus::frozen(3), BoardroomStatus::Frozen { became_frozen: 3 }));
    assert!(matches!(BoardroomStatus::fluid(4), BoardroomStatus::Fluid { fluid_until: 4 }));
    assert!(matches!(BoardroomStatus::locked(5), BoardroomStatus::Locked { locked_until: 5 }));
    let staking = NFTStakingStorage::default();
    assert!(!staking.status);
    assert_eq!(staking.authority, Pubkey::default());
    assert_eq!(staking.collection, Pubkey::default());
}

#[test]
fn reward_policy_pays_a_fixed_reward_to_every_stake() {
    for (staked_at, minimum_period, now) in [(0, 0, 0), (100, 50, 10), (-5, u64::MAX, i64::MAX)] {
        let decision = reward_policy(staked_at, minimum_period, now);
        assert!(decision.eligible);
        assert_eq!(decision.amount, 50_000_000);
    }
    assert_eq!(REWARD_UNITS, 50_000_000);
}
