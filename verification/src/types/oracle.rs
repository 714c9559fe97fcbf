//! The price oracle: reading a pool's price and keeping a window of the last
//! five readings.

use crate::errors::ProgramResult;
use crate::types::clock::Clock;
use crate::types::price::DatedPrice;
use crate::types::price::Price;
use crate::utils::math::decimals_in_range;
use crate::utils::math::sqrt_price_to_price;
use crate::utils::math::sqrt_price_to_price_spec;
use vstd::prelude::*;

verus! {

/// The divisor of the time-weighted average. The window holds five readings
/// and their sum is divided by ten, so the average reported is half the
/// arithmetic mean of the five values.
pub const TWAP_DIVISOR: u64 = 10;

/// What the oracle reads of a pool: its square-root price scaled by 2^64 and
/// the decimals of its two assets.
#[derive(Debug, Clone, Copy)]
pub struct PoolPrice {
    /// The pool's square-root price, scaled by 2^64.
    pub sqrt_price_x64: u128,
    /// Decimals of the pool's first asset.
    pub mint_decimals_0: u8,
    /// Decimals of the pool's second asset.
    pub mint_decimals_1: u8,
}

/// A signed unix time as the unsigned number of the same 64 bits.
pub open spec fn timestamp_bits(unix_timestamp: i64) -> u64 {
    if unix_timestamp >= 0 {
        unix_timestamp as u64
    } else {
        (unix_timestamp + 0x1_0000_0000_0000_0000) as u64
    }
}

/// What `get_price` returns: the pool's price, dated with the clock's slot
/// and time, or the error of the conversion.
pub open spec fn get_price_spec(a_to_b: bool, pool: &PoolPrice, clock: &Clock) -> ProgramResult<
    DatedPrice,
> {
    match sqrt_price_to_price_spec(
        a_to_b,
        pool.sqrt_price_x64,
        pool.mint_decimals_0,
        pool.mint_decimals_1,
    ) {
        Ok(price) => Ok(
            DatedPrice {
                price,
                last_updated_slot: clock.slot,
                unix_timestamp: timestamp_bits(clock.unix_timestamp),
                index: 0,
            },
        ),
        Err(e) => Err(e),
    }
}

/// Gives the price of the given token pair in the given pool, dated with the
/// clock's slot and time.
pub fn get_price(a_to_b: bool, pool: &PoolPrice, clock: &Clock) -> (r: ProgramResult<DatedPrice>)
    requires
        decimals_in_range(pool.mint_decimals_0, pool.mint_decimals_1),
    ensures
        r == get_price_spec(a_to_b, pool, clock),
{
    let price = match sqrt_price_to_price(
        a_to_b,
        pool.sqrt_price_x64,
        pool.mint_decimals_0,
        pool.mint_decimals_1,
    ) {
        Ok(price) => price,
        Err(e) => {
            return Err(e);
        },
    };
    let unix_timestamp: u64 = if clock.unix_timestamp >= 0 {
        clock.unix_timestamp as u64
    } else {
        u64::MAX - ((-(clock.unix_timestamp + 1)) as u64)
    };
    Ok(DatedPrice { price, last_updated_slot: clock.slot, unix_timestamp, index: 0 })
}

/// Stores price captures, oldest first.
#[derive(Debug, Clone, Copy)]
pub struct PriceStorage {
    pub observations: [DatedPrice; 5],
}

impl View for PriceStorage {
    type V = Seq<DatedPrice>;

    /// The five readings, oldest first.
    open spec fn view(&self) -> Seq<DatedPrice> {
        self.observations@
    }
}

impl PriceStorage {
    /// The window before any reading: five zero prices read at slot zero.
    pub open spec fn empty_window() -> Seq<DatedPrice> {
        Seq::new(
            5,
            |i: int|
                DatedPrice {
                    price: Price { value: 0, exp: 0 },
                    last_updated_slot: 0,
                    unix_timestamp: 0,
                    index: 0,
                },
        )
    }
}

impl Default for PriceStorage {
    /// The window before any reading.
    fn default() -> (r: Self)
        ensures
            r@ == PriceStorage::empty_window(),
    {
        let empty = DatedPrice::default();
        let r = Self { observations: [empty, empty, empty, empty, empty] };
        assert(r@ =~= PriceStorage::empty_window());
        r
    }
}

/// Time weighted average price.
#[derive(Debug, Clone, Copy)]
pub struct Twap {
    pub twap: u64,
    pub exp: u64,
}

/// The sum of the five price values of a window.
pub open spec fn observations_sum(observations: Seq<DatedPrice>) -> int {
    observations[0].price.value + observations[1].price.value + observations[2].price.value
        + observations[3].price.value + observations[4].price.value
}

/// The average over a window of five readings: the sum of the five price
/// values divided by `TWAP_DIVISOR`, rounded down, with the exponent given.
/// The sum is taken without wrapping.
pub fn calculate_twap(observations: [DatedPrice; 5], exp: u64) -> (r: Twap)
    ensures
        r.twap == observations_sum(observations@) / (TWAP_DIVISOR as int),
        r.exp == exp,
{
    let mut sum: u128 = 0;
    let mut i: usize = 0;
    while i < 5
        invariant
            i <= 5,
            sum <= i * u64::MAX,
            i == 0 ==> sum == 0,
            i == 1 ==> sum == observations@[0].price.value,
            i == 2 ==> sum == observations@[0].price.value + observations@[1].price.value,
            i == 3 ==> sum == observations@[0].price.value + observations@[1].price.value
                + observations@[2].price.value,
            i == 4 ==> sum == observations@[0].price.value + observations@[1].price.value
                + observations@[2].price.value + observations@[3].price.value,
            i == 5 ==> sum == observations_sum(observations@),
        decreases 5 - i,
    {
        sum = sum + observations[i].price.value as u128;
        i += 1;
    }
    Twap { twap: (sum / (TWAP_DIVISOR as u128)) as u64, exp }
}

/// The window after a new reading: the oldest reading leaves, the others
/// move up and the new one comes last.
pub fn append_observation(observations: [DatedPrice; 5], update: DatedPrice) -> (r: [DatedPrice;
    5])
    ensures
        r@ == observations@.subrange(1, 5).push(update),
{
    let r = [observations[1], observations[2], observations[3], observations[4], update];
    assert(r@ =~= observations@.subrange(1, 5).push(update));
    r
}

/// Reads the pool's price and appends it to the window. Where the price
/// cannot be read the window is not returned.
pub fn update_observations(
    clock: &Clock,
    a_to_b: bool,
    pool: &PoolPrice,
    observations: [DatedPrice; 5],
) -> (r: ProgramResult<[DatedPrice; 5]>)
    requires
        decimals_in_range(pool.mint_decimals_0, pool.mint_decimals_1),
    ensures
        match get_price_spec(a_to_b, pool, clock) {
            Ok(update) => r.is_ok() && r.unwrap()@ == observations@.subrange(1, 5).push(update),
            Err(e) => r == Err::<[DatedPrice; 5], _>(e),
        },
{
    match get_price(a_to_b, pool, clock) {
        Ok(update) => Ok(append_observation(observations, update)),
        Err(e) => Err(e),
    }
}

} // verus!
