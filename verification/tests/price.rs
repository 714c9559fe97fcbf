use bank_of_sol::types::price::decimal_to_price;
use bank_of_sol::types::price::DatedPrice;
use bank_of_sol::types::price::Price;

const WAD: u128 = 1_000_000_000_000_000_000;

fn check_price_to_scaled_value(price: u64, exp: u8, target_scale: u8, expected: u128) {
    let price = Price { value: price, exp: exp.into() };
    let scaled_value = price.to_scaled_value(target_scale);
    assert_eq!(scaled_value, expected);
}

#[test]
fn test_price_to_scaled_value_one_without_decimals() {
    check_price_to_scaled_value(1, 0, 6, 1_000_000);
}

#[test]
fn test_price_to_scaled_value_one_millionth() {
    check_price_to_scaled_value(1, 6, 6, 1);
}

#[test]
fn test_price_to_scaled_value_same_scale() {
    check_price_to_scaled_value(1_000_000, 6, 6, 1_000_000);
}

#[test]
fn test_price_to_scaled_value_rounds_down() {
    check_price_to_scaled_value(2_000_000_000_000, 18, 6, 2);
}

#[test]
fn price_to_scaled_value_at_the_widest_difference() {
    check_price_to_scaled_value(3, 0, 30, 3_000_000_000_000_000_000_000_000_000_000);
    check_price_to_scaled_value(u64::MAX, 30, 0, 0);
}

#[test]
fn price_default_is_zero() {
    let price = Price::default();
    assert_eq!((price.value, price.exp), (0, 0));
}

#[test]
fn price_equality_aligns_exponents() {
    assert_eq!(Price { value: 1, exp: 0 }, Price { value: 1_000_000, exp: 6 });
    assert_eq!(Price { value: 1_000_000, exp: 6 }, Price { value: 1, exp: 0 });
    assert_eq!(Price { value: 25, exp: 1 }, Price { value: 2_500, exp: 3 });
    assert_ne!(Price { value: 25, exp: 1 }, Price { value: 2_501, exp: 3 });
    assert_ne!(Price { value: 1, exp: 0 }, Price { value: 1, exp: 1 });
    assert_eq!(Price { value: 7, exp: 4 }, Price { value: 7, exp: 4 });
    assert_ne!(Price { value: 7, exp: 4 }, Price { value: 8, exp: 4 });
}

#[test]
fn price_equality_with_far_apart_exponents() {
    assert_eq!(Price { value: 0, exp: 0 }, Price { value: 0, exp: 500 });
    assert_ne!(Price { value: 1, exp: 0 }, Price { value: u64::MAX, exp: 40 });
    assert_ne!(Price { value: 1, exp: 0 }, Price { value: 0, exp: 25 });
    // 10^19 fits in 64 bits, 10^20 does not.
    assert_eq!(Price { value: 1, exp: 0 }, Price { value: 10_000_000_000_000_000_000, exp: 19 });
    assert_ne!(Price { value: 1, exp: 0 }, Price { value: 10_000_000_000_000_000_000, exp: 20 });
    // 1844674407370955161 * 10 wraps to a small number in 64 bits.
    assert_ne!(Price { value: 1_844_674_407_370_955_162, exp: 0 }, Price { value: 4, exp: 1 });
}

#[test]
fn decimal_to_price_exact_values() {
    let price = decimal_to_price(0);
    assert_eq!((price.value, price.exp), (0, 18));
    let price = decimal_to_price(WAD);
    assert_eq!((price.value, price.exp), (100_000_000_000_000_000, 17));
    let price = decimal_to_price(53_421_587 * WAD / 1_000);
    assert_eq!((price.value, price.exp), (534_215_870_000_000_000, 13));
    // 0.4 rounds to the integer part 0, 0.5 rounds to 1.
    let price = decimal_to_price(4 * WAD / 10);
    assert_eq!((price.value, price.exp), (400_000_000_000_000_000, 18));
    let price = decimal_to_price(WAD / 2);
    assert_eq!((price.value, price.exp), (50_000_000_000_000_000, 17));
    // 9.5 rounds to 10 and so gets one decimal fewer than 9.4.
    let price = decimal_to_price(95 * WAD / 10);
    assert_eq!((price.value, price.exp), (95_000_000_000_000_000, 16));
    let price = decimal_to_price(94 * WAD / 10);
    assert_eq!((price.value, price.exp), (940_000_000_000_000_000, 17));
}

#[test]
fn decimal_to_price_rounds_the_value_half_up() {
    // 1.0000000000000000049 keeps 17 decimals: the 18th rounds down.
    let price = decimal_to_price(WAD + 4);
    assert_eq!((price.value, price.exp), (100_000_000_000_000_000, 17));
    let price = decimal_to_price(WAD + 5);
    assert_eq!((price.value, price.exp), (100_000_000_000_000_001, 17));
}

#[test]
fn decimal_to_price_largest_integer_part() {
    let price = decimal_to_price(u64::MAX as u128 * WAD);
    assert_eq!((price.value, price.exp), (u64::MAX, 0));
    let price = decimal_to_price(u64::MAX as u128 * WAD + WAD / 2 - 1);
    assert_eq!((price.value, price.exp), (u64::MAX, 0));
}

#[test]
fn test_decimal_to_price() {
    let samples: [u128; 6] = [
        WAD,
        123_456_789_012_345_678_901_234,
        999_999_999_999_999_999,
        u64::MAX as u128 * WAD,
        7 * WAD / 3,
        1_000_000_007 * WAD + 1,
    ];
    for decimal_u128 in samples {
        let price = decimal_to_price(decimal_u128);
        let re_decimal_u128 = price.value as u128 * WAD / 10u128.pow(price.exp as u32);
        assert!(
            re_decimal_u128.abs_diff(decimal_u128) < decimal_u128 / 100_000_000,
            "decimal: {}, re_decimal: {}, price: {:?}",
            decimal_u128,
            re_decimal_u128,
            price
        );
    }
}

#[test]
fn dated_price_default_is_all_zero() {
    let dated = DatedPrice::default();
    assert_eq!(dated.price, Price { value: 0, exp: 0 });
    assert_eq!(dated.last_updated_slot, 0);
    assert_eq!(dated.unix_timestamp, 0);
    assert_eq!(dated.index, 0);
}

#[test]
fn price_to_decimal_exact_values() {
    assert_eq!(Price { value: 1, exp: 0 }.to_decimal(), WAD);
    assert_eq!(Price { value: 5_342_158_700_000, exp: 8 }.to_decimal(), 53_421_587 * WAD / 1_000);
    assert_eq!(Price { value: 1, exp: 18 }.to_decimal(), 1);
    assert_eq!(Price { value: 9, exp: 19 }.to_decimal(), 0);
    assert_eq!(Price { value: 10, exp: 19 }.to_decimal(), 1);
    assert_eq!(Price { value: 0, exp: 7 }.to_decimal(), 0);
    assert_eq!(Price { value: u64::MAX, exp: 0 }.to_decimal(), u64::MAX as u128 * WAD);
    assert_eq!(Price::MAX_DECIMAL_EXP, 19);
}

#[test]
fn decimal_to_price_and_back_loses_less_than_one_part_in_10_to_the_8() {
    let samples: [u128; 5] = [
        WAD,
        31_415_926_535_897_932_384_626,
        2 * WAD / 3,
        u64::MAX as u128 * WAD - 1,
        12_345_678_912_345,
    ];
    for decimal_u128 in samples {
        let price = decimal_to_price(decimal_u128);
        let re_decimal_u128 = price.to_decimal();
        assert!(
            re_decimal_u128.abs_diff(decimal_u128) < decimal_u128 / 100_000_000,
            "decimal: {}, re_decimal: {}, price: {:?}",
            decimal_u128,
            re_decimal_u128,
            price
        );
    }
}
