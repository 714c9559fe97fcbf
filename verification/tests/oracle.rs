use bank_of_sol::errors::ErrorCode;
use bank_of_sol::types::clock::Clock;
use bank_of_sol::types::oracle::append_observation;
use bank_of_sol::types::oracle::calculate_twap;
use bank_of_sol::types::oracle::get_price;
use bank_of_sol::types::oracle::update_observations;
use bank_of_sol::types::oracle::PoolPrice;
use bank_of_sol::types::oracle::PriceStorage;
use bank_of_sol::types::price::DatedPrice;
use bank_of_sol::types::price::Price;

fn dated(value: u64, slot: u64) -> DatedPrice {
    DatedPrice {
        price: Price { value, exp: 6 },
        last_updated_slot: slot,
        unix_timestamp: slot * 2,
        index: 0,
    }
}

fn raw(observation: &DatedPrice) -> (u64, u64, u64, u64, u16) {
    (
        observation.price.value,
        observation.price.exp,
        observation.last_updated_slot,
        observation.unix_timestamp,
        observation.index,
    )
}

#[test]
fn get_price_dates_the_price_with_the_clock() {
    let pool = PoolPrice { sqrt_price_x64: 2u128 << 64, mint_decimals_0: 6, mint_decimals_1: 6 };
    let clock = Clock { slot: 77, unix_timestamp: 1_700_000_000 };
    let dated = get_price(true, &pool, &clock).unwrap();
    assert_eq!(raw(&dated), (400_000_000_000_000_000, 17, 77, 1_700_000_000, 0));
}

#[test]
fn get_price_inverts_in_the_other_direction() {
    let pool = PoolPrice { sqrt_price_x64: 2u128 << 64, mint_decimals_0: 6, mint_decimals_1: 6 };
    let clock = Clock { slot: 1, unix_timestamp: 5 };
    let dated = get_price(false, &pool, &clock).unwrap();
    // 1/4, with the integer part zero and so 18 decimals.
    assert_eq!(raw(&dated), (250_000_000_000_000_000, 18, 1, 5, 0));
}

#[test]
fn get_price_keeps_the_bits_of_a_negative_time() {
    let pool = PoolPrice { sqrt_price_x64: 1u128 << 64, mint_decimals_0: 0, mint_decimals_1: 0 };
    let dated = get_price(true, &pool, &Clock { slot: 0, unix_timestamp: -1 }).unwrap();
    assert_eq!(dated.unix_timestamp, u64::MAX);
    let dated = get_price(true, &pool, &Clock { slot: 0, unix_timestamp: i64::MIN }).unwrap();
    assert_eq!(dated.unix_timestamp, 1u64 << 63);
    let dated = get_price(true, &pool, &Clock { slot: 0, unix_timestamp: -3600 }).unwrap();
    assert_eq!(dated.unix_timestamp, (-3600i64) as u64);
}

#[test]
fn get_price_hands_on_the_conversion_error() {
    let pool = PoolPrice { sqrt_price_x64: u128::MAX, mint_decimals_0: 9, mint_decimals_1: 6 };
    let clock = Clock { slot: 1, unix_timestamp: 5 };
    assert_eq!(get_price(true, &pool, &clock), Err(ErrorCode::OutOfRangeIntegralConversion));
}

#[test]
fn price_storage_default_is_five_zero_prices() {
    let storage = PriceStorage::default();
    assert_eq!(storage.observations.len(), 5);
    for observation in storage.observations.iter() {
        assert_eq!(raw(observation), (0, 0, 0, 0, 0));
    }
}

#[test]
fn calculate_twap_divides_the_sum_of_five_by_ten() {
    // The window holds five readings and the divisor is ten: five readings of
    // 100 average to 50, half their arithmetic mean.
    let observations = [dated(100, 1), dated(100, 2), dated(100, 3), dated(100, 4), dated(100, 5)];
    let twap = calculate_twap(observations, 6);
    assert_eq!((twap.twap, twap.exp), (50, 6));
}

#[test]
fn calculate_twap_rounds_down_and_keeps_the_exponent_given() {
    let observations = [dated(1, 1), dated(2, 2), dated(3, 3), dated(4, 4), dated(9, 5)];
    let twap = calculate_twap(observations, 11);
    assert_eq!((twap.twap, twap.exp), (1, 11));
    let twap = calculate_twap(PriceStorage::default().observations, 0);
    assert_eq!((twap.twap, twap.exp), (0, 0));
}

#[test]
fn calculate_twap_does_not_wrap_on_large_values() {
    let observations = [
        dated(u64::MAX, 1),
        dated(u64::MAX, 2),
        dated(u64::MAX, 3),
        dated(u64::MAX, 4),
        dated(u64::MAX, 5),
    ];
    let twap = calculate_twap(observations, 0);
    assert_eq!(twap.twap as u128, (5 * (u64::MAX as u128)) / 10);
}

#[test]
fn append_observation_drops_the_oldest() {
    let observations = [dated(1, 1), dated(2, 2), dated(3, 3), dated(4, 4), dated(5, 5)];
    let window = append_observation(observations, dated(6, 6));
    let values: Vec<u64> = window.iter().map(|o| o.price.value).collect();
    assert_eq!(values, vec![2, 3, 4, 5, 6]);
    let slots: Vec<u64> = window.iter().map(|o| o.last_updated_slot).collect();
    assert_eq!(slots, vec![2, 3, 4, 5, 6]);
}

#[test]
fn update_observations_appends_the_pool_price() {
    let pool = PoolPrice { sqrt_price_x64: 1u128 << 64, mint_decimals_0: 6, mint_decimals_1: 6 };
    let clock = Clock { slot: 42, unix_timestamp: 900 };
    let observations = [dated(1, 1), dated(2, 2), dated(3, 3), dated(4, 4), dated(5, 5)];
    let window = update_observations(&clock, true, &pool, observations).unwrap();
    assert_eq!(window.len(), 5);
    assert_eq!(raw(&window[0]), raw(&dated(2, 2)));
    assert_eq!(raw(&window[3]), raw(&dated(5, 5)));
    assert_eq!(raw(&window[4]), (100_000_000_000_000_000, 17, 42, 900, 0));
}

#[test]
fn update_observations_fails_with_the_price() {
    let pool = PoolPrice { sqrt_price_x64: 1, mint_decimals_0: 6, mint_decimals_1: 6 };
    let clock = Clock { slot: 42, unix_timestamp: 900 };
    let observations = PriceStorage::default().observations;
    assert_eq!(
        update_observations(&clock, false, &pool, observations),
        Err(ErrorCode::OutOfRangeIntegralConversion)
    );
}
