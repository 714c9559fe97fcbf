//! Scaled-integer prices.

use crate::utils::bignum::decimal_div;
use crate::utils::bignum::decimal_from_u64;
use crate::utils::bignum::decimal_mul;
use crate::utils::bignum::decimal_try_round;
use crate::utils::bignum::rounded;
use crate::utils::bignum::two_192;
use crate::utils::bignum::Wide;
use crate::utils::bignum::HALF_WAD;
use crate::utils::bignum::WAD;
use crate::utils::math::lemma_pow10_adds;
use crate::utils::math::lemma_pow10_monotonic;
use crate::utils::math::lemma_pow10_values;
use crate::utils::math::pow10;
use crate::utils::math::precision_exp;
use crate::utils::math::precision_for;
use crate::utils::math::ten_pow;
use crate::utils::math::MAX_TEN_POW_EXPONENT;
use vstd::prelude::*;
use vstd::std_specs::cmp::PartialEqSpecImpl;

verus! {

/// A price as an integer and a decimal exponent: it stands for
/// `value / 10^exp`. For example `value: 5342158700000, exp: 8` is
/// 53421.587.
///
/// Two prices are equal when they stand for the same number, whatever their
/// exponents.
#[derive(Debug, Clone, Copy)]
pub struct Price {
    /// The scaled integer.
    pub value: u64,
    /// The number of decimals in `value`.
    pub exp: u64,
}

impl Default for Price {
    /// The zero price with no decimals.
    fn default() -> (r: Price)
        ensures
            r == (Price { value: 0, exp: 0 }),
    {
        Price { value: 0, exp: 0 }
    }
}

impl Price {
    /// The price re-expressed with `decimals` decimals: the value divided by
    /// a power of ten, rounded down, where the price has more decimals, and
    /// multiplied by one where it has fewer.
    pub open spec fn scaled_value_spec(&self, decimals: u8) -> int {
        if self.exp > decimals {
            self.value as int / pow10((self.exp - decimals) as nat) as int
        } else {
            self.value * pow10((decimals - self.exp) as nat)
        }
    }

    /// Whether `to_scaled_value` can re-express the price with `decimals`
    /// decimals: the exponent fits in 8 bits, the two exponents differ by at
    /// most 30 and the result fits in 128 bits.
    pub open spec fn scalable_to(&self, decimals: u8) -> bool {
        &&& self.exp <= u8::MAX
        &&& self.exp - decimals <= MAX_TEN_POW_EXPONENT
        &&& decimals - self.exp <= MAX_TEN_POW_EXPONENT
        &&& self.scaled_value_spec(decimals) <= u128::MAX
    }

    /// The price as an integer with `decimals` decimals.
    pub fn to_scaled_value(&self, decimals: u8) -> (r: u128)
        requires
            self.scalable_to(decimals),
        ensures
            r == self.scaled_value_spec(decimals),
    {
        let exp: u8 = self.exp as u8;
        let value: u128 = self.value as u128;
        if exp > decimals {
            let diff: u8 = exp - decimals;
            proof {
                lemma_pow10_monotonic(0, diff as nat);
            }
            value / ten_pow(diff)
        } else {
            let diff: u8 = decimals - exp;
            value * ten_pow(diff)
        }
    }

    /// Largest exponent whose power of ten fits in 64 bits.
    pub const MAX_DECIMAL_EXP: u64 = 19;

    /// The price as an 18-decimal fixed-point number, given by its scaled
    /// value: the value times the unit, divided by ten to the exponent and
    /// rounded down.
    pub open spec fn decimal_spec(&self) -> int {
        self.value * WAD / (pow10(self.exp as nat) as int)
    }

    /// The price as an 18-decimal fixed-point number, given by its scaled
    /// value. The exponent must be at most 19, so that its power of ten fits
    /// in 64 bits.
    pub fn to_decimal(&self) -> (r: u128)
        requires
            self.exp <= Price::MAX_DECIMAL_EXP,
        ensures
            r == self.decimal_spec(),
    {
        proof {
            lemma_pow10_values();
            lemma_pow10_monotonic(0, self.exp as nat);
            lemma_pow10_monotonic(self.exp as nat, 19);
        }
        let divisor: u64 = ten_pow(self.exp as u8) as u64;
        let whole = decimal_from_u64(self.value);
        let quotient = decimal_div(whole, divisor);
        proof {
            assert(whole@ <= 0xffff_ffff_ffff_ffff * 1_000_000_000_000_000_000) by (nonlinear_arith)
                requires
                    whole@ == self.value * WAD,
                    self.value <= 0xffff_ffff_ffff_ffff,
                    WAD == 1_000_000_000_000_000_000,
            ;
            assert(0 <= quotient@ <= whole@) by (nonlinear_arith)
                requires
                    quotient@ == whole@ / (divisor as int),
                    divisor >= 1,
                    whole@ >= 0,
            ;
        }
        quotient.to_u128().unwrap()
    }

    /// Whether two prices stand for the same number: each value times ten to
    /// the other's exponent gives the same product.
    pub open spec fn same_number(&self, other: &Price) -> bool {
        self.value * pow10(other.exp as nat) == other.value * pow10(self.exp as nat)
    }
}

proof fn lemma_cancel_factor(a: int, b: int, p: int)
    requires
        p > 0,
    ensures
        (a * p == b * p) <==> a == b,
{
    assert((a * p == b * p) ==> a == b) by (nonlinear_arith)
        requires
            p > 0,
    ;
}

/// Aligning the exponents decides equality: with `high` the price of the
/// larger exponent, the two stand for the same number exactly when the value
/// of `low`, times ten to the difference of the exponents, is the value of
/// `high`.
proof fn lemma_same_number_aligned(high: Price, low: Price)
    requires
        high.exp >= low.exp,
    ensures
        high.same_number(&low) <==> high.value == low.value * pow10((high.exp - low.exp) as nat),
        low.same_number(&high) <==> high.value == low.value * pow10((high.exp - low.exp) as nat),
{
    let diff = (high.exp - low.exp) as nat;
    let base = pow10(low.exp as nat) as int;
    let step = pow10(diff) as int;
    lemma_pow10_adds(low.exp as nat, diff);
    lemma_pow10_monotonic(0, low.exp as nat);
    assert(pow10(high.exp as nat) == base * step);
    assert(low.value * (base * step) == (low.value * step) * base) by (nonlinear_arith);
    lemma_cancel_factor(high.value as int, low.value * step, base);
}

/// Whether `value * 10^diff == target`, computed without overflow.
fn aligned_equal(value: u64, diff: u64, target: u64) -> (r: bool)
    ensures
        r <==> value * pow10(diff as nat) == target,
{
    proof {
        lemma_pow10_values();
    }
    if diff >= 20 {
        proof {
            lemma_pow10_monotonic(20, diff as nat);
            if value > 0 {
                assert(value * pow10(diff as nat) >= pow10(diff as nat)) by (nonlinear_arith)
                    requires
                        value >= 1,
                        pow10(diff as nat) > 0,
                ;
            } else {
                assert(value * pow10(diff as nat) == 0) by (nonlinear_arith)
                    requires
                        value == 0,
                ;
            }
        }
        value == 0 && target == 0
    } else {
        let factor: u128 = ten_pow(diff as u8);
        proof {
            lemma_pow10_monotonic(diff as nat, 19);
            assert(value * factor <= 0xffff_ffff_ffff_ffff * 10_000_000_000_000_000_000)
                by (nonlinear_arith)
                requires
                    0 <= value <= 0xffff_ffff_ffff_ffff,
                    0 <= factor <= 10_000_000_000_000_000_000,
            ;
        }
        (value as u128) * factor == target as u128
    }
}

impl PartialEq for Price {
    /// Equality after aligning the exponents.
    fn eq(&self, other: &Self) -> (r: bool) {
        if self.exp == other.exp {
            proof {
                lemma_pow10_monotonic(0, self.exp as nat);
                lemma_cancel_factor(
                    self.value as int,
                    other.value as int,
                    pow10(self.exp as nat) as int,
                );
            }
            self.value == other.value
        } else if self.exp > other.exp {
            proof {
                lemma_same_number_aligned(*self, *other);
            }
            let r = aligned_equal(other.value, self.exp - other.exp, self.value);
            assert(r == self.same_number(other));
            r
        } else {
            proof {
                lemma_same_number_aligned(*other, *self);
            }
            let r = aligned_equal(self.value, other.exp - self.exp, other.value);
            assert(r == self.same_number(other));
            r
        }
    }
}

impl PartialEqSpecImpl for Price {
    open spec fn obeys_eq_spec() -> bool {
        true
    }

    open spec fn eq_spec(&self, other: &Self) -> bool {
        self.same_number(other)
    }
}

impl Eq for Price {

}

/// What `decimal_to_price` returns for the scaled value of an 18-decimal
/// fixed-point number. The number rounded to an integer picks the exponent;
/// the value is the number times ten to that exponent, rounded to the
/// nearest integer, halves upward.
pub open spec fn decimal_to_price_spec(scaled_val: u128) -> Price {
    let integer_part = ((scaled_val + HALF_WAD) / (WAD as int)) as nat;
    let exp = precision_exp(integer_part);
    Price {
        value: ((scaled_val * pow10(exp) + HALF_WAD) / (WAD as int)) as u64,
        exp: exp as u64,
    }
}

/// Whether an 18-decimal fixed-point number, given by its scaled value,
/// rounds to an integer of 64 bits.
pub open spec fn decimal_in_range(scaled_val: u128) -> bool {
    (scaled_val + HALF_WAD) / (WAD as int) <= u64::MAX
}

proof fn lemma_decimal_value_bound(scaled: int, factor: int, integer_part: int)
    requires
        0 <= scaled,
        1 <= factor,
        integer_part == (scaled + HALF_WAD) / (WAD as int),
        (integer_part + 1) * factor <= 1_000_000_000_000_000_000,
    ensures
        0 <= scaled * factor < two_192() - HALF_WAD,
        (scaled * factor + HALF_WAD) / (WAD as int) < 1_000_000_000_000_000_000,
{
    let top = integer_part + 1;
    assert(scaled + HALF_WAD < top * WAD);
    assert(scaled * factor <= (top * WAD - HALF_WAD - 1) * factor) by (nonlinear_arith)
        requires
            0 <= scaled <= top * WAD - HALF_WAD - 1,
            1 <= factor,
    ;
    assert((top * WAD - HALF_WAD - 1) * factor == (top * factor) * WAD - (HALF_WAD + 1) * factor)
        by (nonlinear_arith);
    assert((HALF_WAD + 1) * factor >= HALF_WAD + 1) by (nonlinear_arith)
        requires
            1 <= factor,
    ;
    assert((top * factor) * WAD <= 1_000_000_000_000_000_000 * WAD) by (nonlinear_arith)
        requires
            top * factor <= 1_000_000_000_000_000_000,
    ;
    assert(0 <= scaled * factor) by (nonlinear_arith)
        requires
            0 <= scaled,
            1 <= factor,
    ;
}

/// Converts an 18-decimal fixed-point number, given by its scaled value,
/// into a price with as many decimals as 64 bits allow. The number must
/// round to an integer of 64 bits.
pub fn decimal_to_price(scaled_val: u128) -> (r: Price)
    requires
        decimal_in_range(scaled_val),
    ensures
        r == decimal_to_price_spec(scaled_val),
{
    let decimal = Wide::from_u128(scaled_val);
    assert(rounded(decimal@).is_some());
    let integer_part: u64 = decimal_try_round(decimal).unwrap();
    let (exp, ten_pow_exp) = precision_for(integer_part);
    proof {
        lemma_pow10_values();
        lemma_pow10_monotonic(0, exp as nat);
        if exp > 0 {
            lemma_decimal_value_bound(scaled_val as int, ten_pow_exp as int, integer_part as int);
        } else {
            assert(scaled_val * ten_pow_exp == scaled_val) by (nonlinear_arith)
                requires
                    ten_pow_exp == 1,
            ;
        }
    }
    let product = decimal_mul(decimal, ten_pow_exp);
    assert(rounded(product@).is_some());
    let value: u64 = decimal_try_round(product).unwrap();
    Price { value, exp }
}

/// A price with the slot and time at which it was read.
#[derive(Debug, Clone, Copy, PartialEq, Eq)]
pub struct DatedPrice {
    /// The price.
    pub price: Price,
    /// The slot at which the price was read.
    pub last_updated_slot: u64,
    /// The unix time at which the price was read.
    pub unix_timestamp: u64,
    /// Current index of the dated price.
    pub index: u16,
}

impl Default for DatedPrice {
    /// The zero price, read at slot zero and time zero.
    fn default() -> (r: DatedPrice)
        ensures
            r == (DatedPrice {
                price: Price { value: 0, exp: 0 },
                last_updated_slot: 0,
                unix_timestamp: 0,
                index: 0,
            }),
    {
        DatedPrice { price: Price::default(), last_updated_slot: 0, unix_timestamp: 0, index: 0u16 }
    }
}

} // verus!
