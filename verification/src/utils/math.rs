//! Powers of ten and the conversions between fixed-point price encodings.

use crate::errors::ErrorCode;
use crate::errors::ProgramResult;
use crate::types::price::Price;
use crate::utils::bignum::two_128;
use crate::utils::bignum::two_192;
use crate::utils::bignum::two_256;
use crate::utils::bignum::u128_div;
use crate::utils::bignum::u128_mul;
use crate::utils::bignum::u192_div;
use crate::utils::bignum::u192_mul;
use crate::utils::bignum::u192_shr_64;
use crate::utils::bignum::u256_div;
use crate::utils::bignum::u256_mul;
use crate::utils::bignum::u256_shr_64;
use crate::utils::bignum::Wide;
use crate::utils::bignum::TWO_64;
use muldiv::MulDiv;
use vstd::prelude::*;

verus! {

/// Ten to the power `e`.
pub open spec fn pow10(e: nat) -> nat
    decreases e,
{
    if e == 0 {
        1
    } else {
        10 * pow10((e - 1) as nat)
    }
}

/// The powers of ten up to `10^30`, written out.
pub proof fn lemma_pow10_values()
    ensures
        pow10(0) == 1,
        pow10(1) == 10,
        pow10(2) == 100,
        pow10(3) == 1_000,
        pow10(4) == 10_000,
        pow10(5) == 100_000,
        pow10(6) == 1_000_000,
        pow10(7) == 10_000_000,
        pow10(8) == 100_000_000,
        pow10(9) == 1_000_000_000,
        pow10(10) == 10_000_000_000,
        pow10(11) == 100_000_000_000,
        pow10(12) == 1_000_000_000_000,
        pow10(13) == 10_000_000_000_000,
        pow10(14) == 100_000_000_000_000,
        pow10(15) == 1_000_000_000_000_000,
        pow10(16) == 10_000_000_000_000_000,
        pow10(17) == 100_000_000_000_000_000,
        pow10(18) == 1_000_000_000_000_000_000,
        pow10(19) == 10_000_000_000_000_000_000,
        pow10(20) == 100_000_000_000_000_000_000,
        pow10(21) == 1_000_000_000_000_000_000_000,
        pow10(22) == 10_000_000_000_000_000_000_000,
        pow10(23) == 100_000_000_000_000_000_000_000,
        pow10(24) == 1_000_000_000_000_000_000_000_000,
        pow10(25) == 10_000_000_000_000_000_000_000_000,
        pow10(26) == 100_000_000_000_000_000_000_000_000,
        pow10(27) == 1_000_000_000_000_000_000_000_000_000,
        pow10(28) == 10_000_000_000_000_000_000_000_000_000,
        pow10(29) == 100_000_000_000_000_000_000_000_000_000,
        pow10(30) == 1_000_000_000_000_000_000_000_000_000_000,
{
    assert(pow10(0) == 1);
    assert(pow10(1) == 10);
    assert(pow10(2) == 100);
    assert(pow10(3) == 1_000);
    assert(pow10(4) == 10_000);
    assert(pow10(5) == 100_000);
    assert(pow10(6) == 1_000_000);
    assert(pow10(7) == 10_000_000);
    assert(pow10(8) == 100_000_000);
    assert(pow10(9) == 1_000_000_000);
    assert(pow10(10) == 10_000_000_000);
    assert(pow10(11) == 100_000_000_000);
    assert(pow10(12) == 1_000_000_000_000);
    assert(pow10(13) == 10_000_000_000_000);
    assert(pow10(14) == 100_000_000_000_000);
    assert(pow10(15) == 1_000_000_000_000_000);
    assert(pow10(16) == 10_000_000_000_000_000);
    assert(pow10(17) == 100_000_000_000_000_000);
    assert(pow10(18) == 1_000_000_000_000_000_000);
    assert(pow10(19) == 10_000_000_000_000_000_000);
    assert(pow10(20) == 100_000_000_000_000_000_000);
    assert(pow10(21) == 1_000_000_000_000_000_000_000);
    assert(pow10(22) == 10_000_000_000_000_000_000_000);
    assert(pow10(23) == 100_000_000_000_000_000_000_000);
    assert(pow10(24) == 1_000_000_000_000_000_000_000_000);
    assert(pow10(25) == 10_000_000_000_000_000_000_000_000);
    assert(pow10(26) == 100_000_000_000_000_000_000_000_000);
    assert(pow10(27) == 1_000_000_000_000_000_000_000_000_000);
    assert(pow10(28) == 10_000_000_000_000_000_000_000_000_000);
    assert(pow10(29) == 100_000_000_000_000_000_000_000_000_000);
    assert(pow10(30) == 1_000_000_000_000_000_000_000_000_000_000);
}

/// Powers of ten are positive and grow with the exponent.
pub proof fn lemma_pow10_monotonic(a: nat, b: nat)
    requires
        a <= b,
    ensures
        0 < pow10(a) <= pow10(b),
    decreases b,
{
    if b == 0 {
    } else if a == b {
        lemma_pow10_monotonic((a - 1) as nat, (b - 1) as nat);
    } else {
        lemma_pow10_monotonic(a, (b - 1) as nat);
    }
}

/// The product of two powers of ten is the power of the summed exponents.
pub proof fn lemma_pow10_adds(a: nat, b: nat)
    ensures
        pow10(a) * pow10(b) == pow10(a + b),
    decreases a,
{
    if a == 0 {
        assert(pow10(0) == 1);
        assert(1 * pow10(b) == pow10(b));
    } else {
        let a1 = (a - 1) as nat;
        lemma_pow10_adds(a1, b);
        let x = pow10(a1);
        let y = pow10(b);
        assert(pow10(a) == 10 * x);
        assert((a + b - 1) as nat == a1 + b);
        assert(pow10(a + b) == 10 * pow10(a1 + b));
        assert((10 * x) * y == 10 * (x * y)) by (nonlinear_arith);
    }
}

/// Largest exponent that `ten_pow` supports.
pub const MAX_TEN_POW_EXPONENT: u8 = 30;

/// Ten to the power `exponent`, for exponents up to 30.
pub fn ten_pow(exponent: u8) -> (value: u128)
    requires
        exponent <= MAX_TEN_POW_EXPONENT,
    ensures
        value == pow10(exponent as nat),
{
    proof {
        lemma_pow10_values();
    }
    let value: u128 = match exponent {
        0 => 1,
        1 => 10,
        2 => 100,
        3 => 1_000,
        4 => 10_000,
        5 => 100_000,
        6 => 1_000_000,
        7 => 10_000_000,
        8 => 100_000_000,
        9 => 1_000_000_000,
        10 => 10_000_000_000,
        11 => 100_000_000_000,
        12 => 1_000_000_000_000,
        13 => 10_000_000_000_000,
        14 => 100_000_000_000_000,
        15 => 1_000_000_000_000_000,
        16 => 10_000_000_000_000_000,
        17 => 100_000_000_000_000_000,
        18 => 1_000_000_000_000_000_000,
        19 => 10_000_000_000_000_000_000,
        20 => 100_000_000_000_000_000_000,
        21 => 1_000_000_000_000_000_000_000,
        22 => 10_000_000_000_000_000_000_000,
        23 => 100_000_000_000_000_000_000_000,
        24 => 1_000_000_000_000_000_000_000_000,
        25 => 10_000_000_000_000_000_000_000_000,
        26 => 100_000_000_000_000_000_000_000_000,
        27 => 1_000_000_000_000_000_000_000_000_000,
        28 => 10_000_000_000_000_000_000_000_000_000,
        29 => 100_000_000_000_000_000_000_000_000_000,
        _ => 1_000_000_000_000_000_000_000_000_000_000,
    };
    value
}

/// The number of decimal digits of `n`; zero has none.
pub open spec fn decimal_digits(n: nat) -> nat
    decreases n,
{
    if n == 0 {
        0
    } else {
        1 + decimal_digits(n / 10)
    }
}

/// A number of at least `10^k` has more than `k` digits.
pub proof fn lemma_digits_at_least(n: nat, k: nat)
    requires
        n >= pow10(k),
    ensures
        decimal_digits(n) >= k + 1,
    decreases k,
{
    lemma_pow10_monotonic(0, k);
    if k > 0 {
        lemma_digits_at_least(n / 10, (k - 1) as nat);
    }
}

/// A number below `10^k` has at most `k` digits.
pub proof fn lemma_digits_at_most(n: nat, k: nat)
    requires
        n < pow10(k),
    ensures
        decimal_digits(n) <= k,
    decreases k,
{
    if n > 0 {
        lemma_digits_at_most(n / 10, (k - 1) as nat);
    }
}

/// Most decimals a price carries.
pub const MAX_PRICE_EXP: u64 = 18;

/// The exponent that gives a price with this integer part the most
/// precision: 18 less the number of digits of the integer part, and zero
/// from 18 digits on. The scaled value then stays below `10^18` wherever the
/// exponent is positive.
pub open spec fn precision_exp(integer_part: nat) -> nat {
    let digits = decimal_digits(integer_part);
    if digits >= 18 {
        0
    } else {
        (18 - digits) as nat
    }
}

/// The exponent of a quotient by this denominator: the exponent of the
/// largest power of ten below the denominator, at most 18, and zero for the
/// denominator one.
pub open spec fn division_exp(denominator: nat) -> nat {
    let digits = decimal_digits((denominator - 1) as nat);
    if digits == 0 {
        0
    } else if digits > 18 {
        18
    } else {
        (digits - 1) as nat
    }
}

/// The exponent for a price with the given integer part, and ten to that
/// power. Where the exponent is positive, a price below the next integer,
/// times that power, stays below `10^18`.
pub fn precision_for(integer_part: u64) -> (r: (u64, u64))
    ensures
        r.0 == precision_exp(integer_part as nat),
        r.1 == pow10(r.0 as nat),
        r.0 <= MAX_PRICE_EXP,
        r.0 > 0 ==> (integer_part + 1) * r.1 <= pow10(18),
{
    proof {
        lemma_pow10_values();
    }
    if integer_part == 0 {
        assert((integer_part + 1) * 1_000_000_000_000_000_000 <= 1_000_000_000_000_000_000);
        (18, 1_000_000_000_000_000_000)
    } else if integer_part <= 9 {
        proof {
            lemma_digits_at_least(integer_part as nat, 0);
            lemma_digits_at_most(integer_part as nat, 1);
            assert((integer_part + 1) * 100_000_000_000_000_000 <= 1_000_000_000_000_000_000);
        }
        (17, 100_000_000_000_000_000)
    } else if integer_part <= 99 {
        proof {
            lemma_digits_at_least(integer_part as nat, 1);
            lemma_digits_at_most(integer_part as nat, 2);
            assert((integer_part + 1) * 10_000_000_000_000_000 <= 1_000_000_000_000_000_000);
        }
        (16, 10_000_000_000_000_000)
    } else if integer_part <= 999 {
        proof {
            lemma_digits_at_least(integer_part as nat, 2);
            lemma_digits_at_most(integer_part as nat, 3);
            assert((integer_part + 1) * 1_000_000_000_000_000 <= 1_000_000_000_000_000_000);
        }
        (15, 1_000_000_000_000_000)
    } else if integer_part <= 9_999 {
        proof {
            lemma_digits_at_least(integer_part as nat, 3);
            lemma_digits_at_most(integer_part as nat, 4);
            assert((integer_part + 1) * 100_000_000_000_000 <= 1_000_000_000_000_000_000);
        }
        (14, 100_000_000_000_000)
    } else if integer_part <= 99_999 {
        proof {
            lemma_digits_at_least(integer_part as nat, 4);
            lemma_digits_at_most(integer_part as nat, 5);
            assert((integer_part + 1) * 10_000_000_000_000 <= 1_000_000_000_000_000_000);
        }
        (13, 10_000_000_000_000)
    } else if integer_part <= 999_999 {
        proof {
            lemma_digits_at_least(integer_part as nat, 5);
            lemma_digits_at_most(integer_part as nat, 6);
            assert((integer_part + 1) * 1_000_000_000_000 <= 1_000_000_000_000_000_000);
        }
        (12, 1_000_000_000_000)
    } else if integer_part <= 9_999_999 {
        proof {
            lemma_digits_at_least(integer_part as nat, 6);
            lemma_digits_at_most(integer_part as nat, 7);
            assert((integer_part + 1) * 100_000_000_000 <= 1_000_000_000_000_000_000);
        }
        (11, 100_000_000_000)
    } else if integer_part <= 99_999_999 {
        proof {
            lemma_digits_at_least(integer_part as nat, 7);
            lemma_digits_at_most(integer_part as nat, 8);
            assert((integer_part + 1) * 10_000_000_000 <= 1_000_000_000_000_000_000);
        }
        (10, 10_000_000_000)
    } else if integer_part <= 999_999_999 {
        proof {
            lemma_digits_at_least(integer_part as nat, 8);
            lemma_digits_at_most(integer_part as nat, 9);
            assert((integer_part + 1) * 1_000_000_000 <= 1_000_000_000_000_000_000);
        }
        (9, 1_000_000_000)
    } else if integer_part <= 9_999_999_999 {
        proof {
            lemma_digits_at_least(integer_part as nat, 9);
            lemma_digits_at_most(integer_part as nat, 10);
            assert((integer_part + 1) * 100_000_000 <= 1_000_000_000_000_000_000);
        }
        (8, 100_000_000)
    } else if integer_part <= 99_999_999_999 {
        proof {
            lemma_digits_at_least(integer_part as nat, 10);
            lemma_digits_at_most(integer_part as nat, 11);
            assert((integer_part + 1) * 10_000_000 <= 1_000_000_000_000_000_000);
        }
        (7, 10_000_000)
    } else if integer_part <= 999_999_999_999 {
        proof {
            lemma_digits_at_least(integer_part as nat, 11);
            lemma_digits_at_most(integer_part as nat, 12);
            assert((integer_part + 1) * 1_000_000 <= 1_000_000_000_000_000_000);
        }
        (6, 1_000_000)
    } else if integer_part <= 9_999_999_999_999 {
        proof {
            lemma_digits_at_least(integer_part as nat, 12);
            lemma_digits_at_most(integer_part as nat, 13);
            assert((integer_part + 1) * 100_000 <= 1_000_000_000_000_000_000);
        }
        (5, 100_000)
    } else if integer_part <= 99_999_999_999_999 {
        proof {
            lemma_digits_at_least(integer_part as nat, 13);
            lemma_digits_at_most(integer_part as nat, 14);
            assert((integer_part + 1) * 10_000 <= 1_000_000_000_000_000_000);
        }
        (4, 10_000)
    } else if integer_part <= 999_999_999_999_999 {
        proof {
            lemma_digits_at_least(integer_part as nat, 14);
            lemma_digits_at_most(integer_part as nat, 15);
            assert((integer_part + 1) * 1_000 <= 1_000_000_000_000_000_000);
        }
        (3, 1_000)
    } else if integer_part <= 9_999_999_999_999_999 {
        proof {
            lemma_digits_at_least(integer_part as nat, 15);
            lemma_digits_at_most(integer_part as nat, 16);
            assert((integer_part + 1) * 100 <= 1_000_000_000_000_000_000);
        }
        (2, 100)
    } else if integer_part <= 99_999_999_999_999_999 {
        proof {
            lemma_digits_at_least(integer_part as nat, 16);
            lemma_digits_at_most(integer_part as nat, 17);
            assert((integer_part + 1) * 10 <= 1_000_000_000_000_000_000);
        }
        (1, 10)
    } else {
        proof {
            lemma_digits_at_least(integer_part as nat, 17);
        }
        (0, 1)
    }
}

/// The exponent for a quotient by the given denominator, and ten to that
/// power, which never exceeds the denominator.
pub fn division_precision_for(denominator: u64) -> (r: (u64, u64))
    requires
        denominator != 0,
    ensures
        r.0 == division_exp(denominator as nat),
        r.1 == pow10(r.0 as nat),
        r.0 <= MAX_PRICE_EXP,
        r.1 <= denominator,
{
    proof {
        lemma_pow10_values();
    }
    if denominator <= 10 {
        proof {
            lemma_digits_at_most((denominator - 1) as nat, 1);
        }
        (0, 1)
    } else if denominator <= 100 {
        proof {
            lemma_digits_at_least((denominator - 1) as nat, 1);
            lemma_digits_at_most((denominator - 1) as nat, 2);
        }
        (1, 10)
    } else if denominator <= 1_000 {
        proof {
            lemma_digits_at_least((denominator - 1) as nat, 2);
            lemma_digits_at_most((denominator - 1) as nat, 3);
        }
        (2, 100)
    } else if denominator <= 10_000 {
        proof {
            lemma_digits_at_least((denominator - 1) as nat, 3);
            lemma_digits_at_most((denominator - 1) as nat, 4);
        }
        (3, 1_000)
    } else if denominator <= 100_000 {
        proof {
            lemma_digits_at_least((denominator - 1) as nat, 4);
            lemma_digits_at_most((denominator - 1) as nat, 5);
        }
        (4, 10_000)
    } else if denominator <= 1_000_000 {
        proof {
            lemma_digits_at_least((denominator - 1) as nat, 5);
            lemma_digits_at_most((denominator - 1) as nat, 6);
        }
        (5, 100_000)
    } else if denominator <= 10_000_000 {
        proof {
            lemma_digits_at_least((denominator - 1) as nat, 6);
            lemma_digits_at_most((denominator - 1) as nat, 7);
        }
        (6, 1_000_000)
    } else if denominator <= 100_000_000 {
        proof {
            lemma_digits_at_least((denominator - 1) as nat, 7);
            lemma_digits_at_most((denominator - 1) as nat, 8);
        }
        (7, 10_000_000)
    } else if denominator <= 1_000_000_000 {
        proof {
            lemma_digits_at_least((denominator - 1) as nat, 8);
            lemma_digits_at_most((denominator - 1) as nat, 9);
        }
        (8, 100_000_000)
    } else if denominator <= 10_000_000_000 {
        proof {
            lemma_digits_at_least((denominator - 1) as nat, 9);
            lemma_digits_at_most((denominator - 1) as nat, 10);
        }
        (9, 1_000_000_000)
    } else if denominator <= 100_000_000_000 {
        proof {
            lemma_digits_at_least((denominator - 1) as nat, 10);
            lemma_digits_at_most((denominator - 1) as nat, 11);
        }
        (10, 10_000_000_000)
    } else if denominator <= 1_000_000_000_000 {
        proof {
            lemma_digits_at_least((denominator - 1) as nat, 11);
            lemma_digits_at_most((denominator - 1) as nat, 12);
        }
        (11, 100_000_000_000)
    } else if denominator <= 10_000_000_000_000 {
        proof {
            lemma_digits_at_least((denominator - 1) as nat, 12);
            lemma_digits_at_most((denominator - 1) as nat, 13);
        }
        (12, 1_000_000_000_000)
    } else if denominator <= 100_000_000_000_000 {
        proof {
            lemma_digits_at_least((denominator - 1) as nat, 13);
            lemma_digits_at_most((denominator - 1) as nat, 14);
        }
        (13, 10_000_000_000_000)
    } else if denominator <= 1_000_000_000_000_000 {
        proof {
            lemma_digits_at_least((denominator - 1) as nat, 14);
            lemma_digits_at_most((denominator - 1) as nat, 15);
        }
        (14, 100_000_000_000_000)
    } else if denominator <= 10_000_000_000_000_000 {
        proof {
            lemma_digits_at_least((denominator - 1) as nat, 15);
            lemma_digits_at_most((denominator - 1) as nat, 16);
        }
        (15, 1_000_000_000_000_000)
    } else if denominator <= 100_000_000_000_000_000 {
        proof {
            lemma_digits_at_least((denominator - 1) as nat, 16);
            lemma_digits_at_most((denominator - 1) as nat, 17);
        }
        (16, 10_000_000_000_000_000)
    } else if denominator <= 1_000_000_000_000_000_000 {
        proof {
            lemma_digits_at_least((denominator - 1) as nat, 17);
            lemma_digits_at_most((denominator - 1) as nat, 18);
        }
        (17, 100_000_000_000_000_000)
    } else {
        proof {
            lemma_digits_at_least((denominator - 1) as nat, 18);
        }
        (18, 1_000_000_000_000_000_000)
    }
}

/// A pool's price scaled by 2^64, from its square-root price scaled by 2^64
/// and the decimals of its two assets: the square, scaled back by 2^64, then
/// multiplied by ten to the difference of the decimals where the first asset
/// has more, and divided by it where it has fewer. Each division rounds down.
pub open spec fn x64_price_spec(sqrt_price: nat, decimals_a: nat, decimals_b: nat) -> nat {
    let price = sqrt_price * sqrt_price / (TWO_64 as nat);
    if decimals_a >= decimals_b {
        price * pow10((decimals_a - decimals_b) as nat)
    } else {
        price / pow10((decimals_b - decimals_a) as nat)
    }
}

/// The price that a value scaled by 2^64 converts to. Its integer part picks
/// the exponent; the value is the scaled price times ten to that exponent,
/// scaled back and rounded down. An integer part beyond 64 bits has no price.
pub open spec fn price_of_x64(x64: nat) -> ProgramResult<Price> {
    let integer_part = x64 / (TWO_64 as nat);
    if integer_part > u64::MAX {
        Err(ErrorCode::OutOfRangeIntegralConversion)
    } else {
        let exp = precision_exp(integer_part);
        Ok(Price { value: (x64 * pow10(exp) / (TWO_64 as nat)) as u64, exp: exp as u64 })
    }
}

/// What `sqrt_price_to_price` returns.
///
/// A zero square-root price is the zero price. In the direction a to b the
/// pool's price converts as it is. In the other direction the square-root
/// price is first inverted, `2^128 / sqrt_price` rounded down, and the
/// decimals change places; an inverse beyond 128 bits has no price.
pub open spec fn sqrt_price_to_price_spec(
    a_to_b: bool,
    sqrt_price: u128,
    decimals_a: u8,
    decimals_b: u8,
) -> ProgramResult<Price> {
    if sqrt_price == 0 {
        Ok(Price { value: 0, exp: 0 })
    } else if a_to_b {
        price_of_x64(x64_price_spec(sqrt_price as nat, decimals_a as nat, decimals_b as nat))
    } else {
        let inverted = two_128() / (sqrt_price as int);
        if inverted > u128::MAX {
            Err(ErrorCode::OutOfRangeIntegralConversion)
        } else {
            price_of_x64(x64_price_spec(inverted as nat, decimals_b as nat, decimals_a as nat))
        }
    }
}

/// Whether two decimal counts are close enough for the rescaling power of
/// ten to be supported.
pub open spec fn decimals_in_range(decimals_a: u8, decimals_b: u8) -> bool {
    decimals_a - decimals_b <= MAX_TEN_POW_EXPONENT && decimals_b - decimals_a
        <= MAX_TEN_POW_EXPONENT
}

proof fn lemma_square_bound(s: int)
    requires
        0 <= s < two_128(),
    ensures
        0 <= s * s < two_256(),
        s * s / (TWO_64 as int) < two_192(),
{
    assert(0 <= s * s <= (two_128() - 1) * (two_128() - 1)) by (nonlinear_arith)
        requires
            0 <= s <= two_128() - 1,
    ;
}

proof fn lemma_product_bound(a: int, b: int, a_max: int, b_max: int)
    requires
        0 <= a <= a_max,
        0 <= b <= b_max,
    ensures
        0 <= a * b <= a_max * b_max,
{
    assert(0 <= a * b <= a_max * b_max) by (nonlinear_arith)
        requires
            0 <= a <= a_max,
            0 <= b <= b_max,
    ;
}

proof fn lemma_product_at_least(a: int, b: int, a_min: int, b_min: int)
    requires
        0 <= a_min <= a,
        0 <= b_min <= b,
    ensures
        a_min * b_min <= a * b,
{
    assert(a_min * b_min <= a * b) by (nonlinear_arith)
        requires
            0 <= a_min <= a,
            0 <= b_min <= b,
    ;
}

proof fn lemma_quotient_at_most(a: int, d: int)
    requires
        0 <= a,
        1 <= d,
    ensures
        0 <= a / d <= a,
{
    assert(0 <= a / d <= a) by (nonlinear_arith)
        requires
            0 <= a,
            1 <= d,
    ;
}

/// The pool's price scaled by 2^64, where it fits in 192 bits.
pub fn sqrt_price_to_x64_price(sqrt_price: u128, decimals_a: u8, decimals_b: u8) -> (r: Option<Wide>)
    requires
        decimals_in_range(decimals_a, decimals_b),
    ensures
        match r {
            Some(x64) => x64.fits_192() && x64@ == x64_price_spec(
                sqrt_price as nat,
                decimals_a as nat,
                decimals_b as nat,
            ),
            None => x64_price_spec(sqrt_price as nat, decimals_a as nat, decimals_b as nat)
                >= two_192(),
        },
{
    let root = Wide::from_u128(sqrt_price);
    proof {
        lemma_square_bound(sqrt_price as int);
        lemma_pow10_values();
    }
    let square = u256_mul(root, root);
    let price = u256_shr_64(square);
    if decimals_a >= decimals_b {
        let scale: u128 = ten_pow(decimals_a - decimals_b);
        proof {
            lemma_pow10_monotonic((decimals_a - decimals_b) as nat, 30);
        }
        if price.w2 != 0 && scale >= TWO_64 {
            proof {
                lemma_product_at_least(price@, scale as int, two_128(), TWO_64 as int);
            }
            None
        } else {
            proof {
                if price.w2 != 0 {
                    lemma_product_bound(price@, scale as int, two_192() - 1, TWO_64 - 1);
                } else {
                    lemma_product_bound(
                        price@,
                        scale as int,
                        two_128() - 1,
                        1_000_000_000_000_000_000_000_000_000_000,
                    );
                }
            }
            let scaled = u256_mul(price, Wide::from_u128(scale));
            if scaled.w3 != 0 {
                None
            } else {
                Some(scaled)
            }
        }
    } else {
        let scale: u128 = ten_pow(decimals_b - decimals_a);
        proof {
            lemma_pow10_monotonic(0, (decimals_b - decimals_a) as nat);
            lemma_quotient_at_most(price@, scale as int);
        }
        let scaled = u256_div(price, Wide::from_u128(scale));
        Some(scaled)
    }
}

proof fn lemma_scaled_value_bound(x64: int, factor: int, integer_part: int, bound: int)
    requires
        0 <= x64,
        0 < factor,
        integer_part == x64 / (TWO_64 as int),
        (integer_part + 1) * factor <= bound,
    ensures
        0 <= x64 * factor < bound * TWO_64,
        0 <= x64 * factor / (TWO_64 as int) < bound,
{
    let top = integer_part + 1;
    assert(x64 < top * TWO_64);
    assert(0 <= x64 * factor < top * TWO_64 * factor) by (nonlinear_arith)
        requires
            0 <= x64 < top * TWO_64,
            0 < factor,
    ;
    assert(top * TWO_64 * factor == top * factor * TWO_64) by (nonlinear_arith);
    assert(top * factor * TWO_64 <= bound * TWO_64) by (nonlinear_arith)
        requires
            top * factor <= bound,
    ;
}

/// The price of a value scaled by 2^64.
fn x64_to_price(x64: Wide) -> (r: ProgramResult<Price>)
    requires
        x64.fits_192(),
    ensures
        r == price_of_x64(x64@ as nat),
{
    let whole = u192_shr_64(x64);
    match whole.to_u64() {
        None => Err(ErrorCode::OutOfRangeIntegralConversion),
        Some(integer_part) => {
            let (exp, factor) = precision_for(integer_part);
            proof {
                lemma_pow10_values();
                lemma_pow10_monotonic(0, exp as nat);
                if exp > 0 {
                    lemma_scaled_value_bound(
                        x64@,
                        factor as int,
                        integer_part as int,
                        pow10(18) as int,
                    );
                } else {
                    assert(x64@ * factor == x64@) by (nonlinear_arith)
                        requires
                            factor == 1,
                    ;
                }
            }
            let scaled = u192_mul(x64, Wide::from_u64(factor));
            let value = u192_shr_64(scaled);
            Ok(Price { value: value.w0, exp })
        },
    }
}

/// Converts a pool's square-root price, scaled by 2^64, into a price with as
/// many decimals as 64 bits allow.
///
/// `a_to_b` picks the direction: the price of the first asset in the second,
/// or the inverse. The two decimal counts may differ by at most 30. A price
/// whose integer part leaves 64 bits is refused with
/// `OutOfRangeIntegralConversion`, and so is an inverted square-root price
/// that leaves 128 bits; no input makes the conversion wrap.
pub fn sqrt_price_to_price(a_to_b: bool, sqrt_price: u128, decimals_a: u8, decimals_b: u8) -> (r:
    ProgramResult<Price>)
    requires
        decimals_in_range(decimals_a, decimals_b),
    ensures
        r == sqrt_price_to_price_spec(a_to_b, sqrt_price, decimals_a, decimals_b),
{
    if sqrt_price == 0 {
        return Ok(Price { value: 0, exp: 0 });
    }
    let x64_price = if a_to_b {
        sqrt_price_to_x64_price(sqrt_price, decimals_a, decimals_b)
    } else {
        let one_shl_128 = Wide { w0: 0, w1: 0, w2: 1, w3: 0 };
        let inverted = u192_div(one_shl_128, Wide::from_u128(sqrt_price));
        match inverted.to_u128() {
            None => {
                return Err(ErrorCode::OutOfRangeIntegralConversion);
            },
            Some(inverted_sqrt_price) => sqrt_price_to_x64_price(
                inverted_sqrt_price,
                decimals_b,
                decimals_a,
            ),
        }
    };
    match x64_price {
        None => Err(ErrorCode::OutOfRangeIntegralConversion),
        Some(x64) => x64_to_price(x64),
    }
}

/// A number of `d` digits, times ten to the power `18 - d`, has 18 digits.
proof fn lemma_precision_fills_digits(integer_part: nat)
    requires
        integer_part > 0,
    ensures
        integer_part * pow10(precision_exp(integer_part)) >= pow10(17),
{
    let digits = decimal_digits(integer_part);
    let exp = precision_exp(integer_part);
    assert(digits >= 1);
    let below = (digits - 1) as nat;
    if integer_part < pow10(below) {
        lemma_digits_at_most(integer_part, below);
    }
    assert(integer_part >= pow10(below));
    lemma_pow10_monotonic(0, exp);
    if digits >= 18 {
        lemma_pow10_monotonic(17, below);
        assert(pow10(0) == 1);
        assert(integer_part * pow10(exp) == integer_part) by (nonlinear_arith)
            requires
                pow10(exp) == 1,
        ;
    } else {
        lemma_pow10_adds(below, exp);
        assert(below + exp == 17);
        assert(integer_part * pow10(exp) >= pow10(below) * pow10(exp)) by (nonlinear_arith)
            requires
                integer_part >= pow10(below),
                pow10(exp) > 0,
        ;
    }
}

/// The value of a price is a quotient rounded down: with `exact = x64 *
/// 10^exp`, the value is the largest integer with `value * 2^64 <= exact`.
pub proof fn lemma_price_value_is_floor(x64: nat, price: Price)
    requires
        price_of_x64(x64) == Ok::<Price, ErrorCode>(price),
    ensures
        price.exp == precision_exp(x64 / (TWO_64 as nat)),
        price.value * TWO_64 <= x64 * pow10(price.exp as nat) < (price.value + 1) * TWO_64,
{
    lemma_pow10_values();
    let integer_part = x64 / (TWO_64 as nat);
    let exp = precision_exp(integer_part);
    let factor = pow10(exp) as int;
    let exact = x64 * factor;
    let quotient = exact / (TWO_64 as int);
    lemma_pow10_monotonic(0, exp);
    assert(exact >= 0) by (nonlinear_arith)
        requires
            exact == x64 * factor,
            factor > 0,
    ;
    // The quotient fits in 64 bits, so the value kept is the whole of it.
    if exp > 0 {
        if integer_part == 0 {
            assert(decimal_digits(0) == 0);
            assert(exp == 18);
        } else {
            let digits = decimal_digits(integer_part);
            if integer_part >= pow10(digits) {
                lemma_digits_at_least(integer_part, digits);
            }
            lemma_pow10_adds(digits, exp);
            assert(digits + exp == 18);
            assert((integer_part + 1) * factor <= pow10(digits) * factor) by (nonlinear_arith)
                requires
                    integer_part + 1 <= pow10(digits),
                    factor > 0,
            ;
        }
        lemma_scaled_value_bound(x64 as int, factor, integer_part as int, pow10(18) as int);
    } else {
        assert(pow10(0) == 1);
        assert(exact == x64) by (nonlinear_arith)
            requires
                exact == x64 * factor,
                factor == 1,
        ;
    }
    assert(price.value == quotient);
}

/// A price of at least one has at least 18 digits: with `exact = x64 *
/// 10^exp`, `exact >= 10^17 * 2^64`.
proof fn lemma_price_fills_digits(x64: nat, price: Price)
    requires
        price_of_x64(x64) == Ok::<Price, ErrorCode>(price),
        x64 >= TWO_64,
    ensures
        x64 * pow10(price.exp as nat) >= pow10(17) * TWO_64,
{
    let integer_part = x64 / (TWO_64 as nat);
    let factor = pow10(precision_exp(integer_part)) as int;
    lemma_pow10_monotonic(0, precision_exp(integer_part));
    lemma_precision_fills_digits(integer_part);
    assert(x64 >= integer_part * TWO_64);
    assert(x64 * factor >= integer_part * factor * TWO_64) by (nonlinear_arith)
        requires
            x64 >= integer_part * TWO_64,
            factor > 0,
    ;
    assert(integer_part * factor * TWO_64 >= pow10(17) * TWO_64) by (nonlinear_arith)
        requires
            integer_part * factor >= pow10(17),
    ;
}

/// Precision of a price: the price that a value scaled by 2^64 converts to
/// never exceeds it and falls short of it by less than one ten-millionth of
/// it, for every value of at least `10^-11` (scaled: `x64 * 10^11 >= 2^64`)
/// that converts at all. Written without fractions: with
/// `exact = x64 * 10^exp` and `kept = value * 2^64`, both standing for the
/// price times `2^64 * 10^exp`, `kept <= exact` and
/// `(exact - kept) * 10^7 < exact`.
pub proof fn lemma_price_precision(x64: nat, price: Price)
    requires
        price_of_x64(x64) == Ok::<Price, ErrorCode>(price),
        x64 * pow10(11) >= TWO_64,
    ensures
        price.value * TWO_64 <= x64 * pow10(price.exp as nat),
        (x64 * pow10(price.exp as nat) - price.value * TWO_64) * pow10(7) < x64 * pow10(
            price.exp as nat,
        ),
{
    lemma_pow10_values();
    lemma_price_value_is_floor(x64, price);
    let factor = pow10(price.exp as nat) as int;
    let exact = x64 * factor;
    if x64 < TWO_64 {
        assert(x64 / (TWO_64 as nat) == 0);
        assert(decimal_digits(0) == 0);
        assert(exact == x64 * pow10(11) * pow10(7)) by (nonlinear_arith)
            requires
                exact == x64 * factor,
                factor == pow10(11) * pow10(7),
        ;
        assert(x64 * pow10(11) * pow10(7) >= TWO_64 * pow10(7)) by (nonlinear_arith)
            requires
                x64 * pow10(11) >= TWO_64,
                pow10(7) > 0,
        ;
    } else {
        lemma_price_fills_digits(x64, price);
    }
    assert(exact >= pow10(7) * TWO_64);
}

/// The numerator of the pool's price as a fraction: the square of the
/// square-root price, times ten to the difference of the decimals where the
/// first asset has more.
pub open spec fn ratio_numerator(sqrt_price: nat, decimals_a: nat, decimals_b: nat) -> nat {
    if decimals_a >= decimals_b {
        sqrt_price * sqrt_price * pow10((decimals_a - decimals_b) as nat)
    } else {
        sqrt_price * sqrt_price
    }
}

/// The denominator of the pool's price as a fraction: `2^128`, which undoes
/// the scale of the squared square-root price, times ten to the difference of
/// the decimals where the first asset has fewer.
pub open spec fn ratio_denominator(decimals_a: nat, decimals_b: nat) -> nat {
    if decimals_a >= decimals_b {
        (TWO_64 * TWO_64) as nat
    } else {
        (TWO_64 * TWO_64 * pow10((decimals_b - decimals_a) as nat)) as nat
    }
}

/// The fixed-point price never exceeds the pool's price and falls short of
/// it by less than one rounding step: with `unit = denominator / 2^64`,
/// `x64 * unit <= numerator < (x64 + step) * unit`, where the step is ten
/// to the difference of the decimals where the first asset has more, and one
/// otherwise.
proof fn lemma_x64_price_bounds(sqrt_price: nat, decimals_a: nat, decimals_b: nat)
    ensures
        ({
            let x64 = x64_price_spec(sqrt_price, decimals_a, decimals_b) as int;
            let numerator = ratio_numerator(sqrt_price, decimals_a, decimals_b) as int;
            if decimals_a >= decimals_b {
                let step = pow10((decimals_a - decimals_b) as nat) as int;
                x64 * TWO_64 <= numerator < (x64 + step) * TWO_64
            } else {
                let unit = TWO_64 * pow10((decimals_b - decimals_a) as nat);
                x64 * unit <= numerator < (x64 + 1) * unit
            }
        }),
{
    let square = (sqrt_price * sqrt_price) as int;
    let base = TWO_64 as int;
    let price = square / base;
    assert(square >= 0) by (nonlinear_arith)
        requires
            square == sqrt_price * sqrt_price,
    ;
    assert(price * base <= square < (price + 1) * base);
    if decimals_a >= decimals_b {
        let step = pow10((decimals_a - decimals_b) as nat) as int;
        lemma_pow10_monotonic(0, (decimals_a - decimals_b) as nat);
        let x64 = price * step;
        assert(x64 * base <= square * step < (x64 + step) * base) by (nonlinear_arith)
            requires
                price * base <= square < (price + 1) * base,
                x64 == price * step,
                step > 0,
        ;
    } else {
        let step = pow10((decimals_b - decimals_a) as nat) as int;
        lemma_pow10_monotonic(0, (decimals_b - decimals_a) as nat);
        let x64 = price / step;
        assert(price >= 0);
        assert(x64 * step <= price < (x64 + 1) * step) by (nonlinear_arith)
            requires
                x64 == price / step,
                step > 0,
                price >= 0,
        ;
        let unit = base * step;
        assert(x64 * unit <= square < (x64 + 1) * unit) by (nonlinear_arith)
            requires
                price * base <= square < (price + 1) * base,
                x64 * step <= price,
                price + 1 <= (x64 + 1) * step,
                unit == base * step,
                base > 0,
        ;
    }
}

/// Two roundings in a row: where `x` is `numerator / unit` rounded down by
/// less than `step`, and `value` is `x * factor / base` rounded down, the
/// fraction `value / factor` never exceeds `numerator / (base * unit)` and
/// falls short of it by less than one ten-millionth, provided `x * factor`
/// is at least ten million times `step * factor + base`.
proof fn lemma_two_roundings(
    numerator: int,
    unit: int,
    x: int,
    step: int,
    value: int,
    factor: int,
    base: int,
)
    requires
        unit >= 1,
        step >= 1,
        factor >= 1,
        base >= 1,
        0 <= x * unit <= numerator < (x + step) * unit,
        0 <= value * base <= x * factor < (value + 1) * base,
        (step * factor + base) * 10_000_000 <= x * factor,
    ensures
        value * (base * unit) <= numerator * factor,
        (numerator * factor - value * (base * unit)) * 10_000_000 < numerator * factor,
{
    let xf = x * factor;
    let xu = x * unit;
    let vb = value * base;
    // What the first rounding loses, and what the second.
    let first = numerator - xu;
    let second = xf - vb;
    assert(0 <= first < step * unit) by (nonlinear_arith)
        requires
            xu == x * unit,
            first == numerator - xu,
            xu <= numerator < (x + step) * unit,
    ;
    assert(0 <= second < base) by (nonlinear_arith)
        requires
            second == x * factor - value * base,
            value * base <= x * factor < (value + 1) * base,
    ;
    assert(numerator * factor - value * (base * unit) == first * factor + second * unit)
        by (nonlinear_arith)
        requires
            first == numerator - x * unit,
            second == x * factor - value * base,
    ;
    assert(0 <= first * factor <= (step * unit - 1) * factor) by (nonlinear_arith)
        requires
            0 <= first <= step * unit - 1,
            factor >= 1,
    ;
    assert(0 <= second * unit <= (base - 1) * unit) by (nonlinear_arith)
        requires
            0 <= second <= base - 1,
            unit >= 1,
    ;
    let lost = first * factor + second * unit;
    assert(lost < (step * factor + base) * unit) by (nonlinear_arith)
        requires
            lost == first * factor + second * unit,
            first * factor <= (step * unit - 1) * factor,
            second * unit <= (base - 1) * unit,
            factor >= 1,
            unit >= 1,
    ;
    assert((step * factor + base) * unit * 10_000_000 <= xf * unit) by (nonlinear_arith)
        requires
            (step * factor + base) * 10_000_000 <= xf,
            unit >= 1,
    ;
    assert(xf * unit <= numerator * factor) by (nonlinear_arith)
        requires
            xf == x * factor,
            x * unit <= numerator,
            factor >= 1,
    ;
    assert(lost * 10_000_000 < (step * factor + base) * unit * 10_000_000) by (nonlinear_arith)
        requires
            lost < (step * factor + base) * unit,
    ;
}

/// Precision of the conversion from a pool's square-root price, in the
/// direction a to b: the price returned never exceeds the pool's price and
/// falls short of it by less than one ten-millionth of it, for every pool
/// price of at least one whose squared square-root price, scaled back by
/// 2^64, is at least twenty million.
///
/// The pool's price is the fraction `ratio_numerator / ratio_denominator`
/// and the price returned is `value / 10^exp`, so, written without
/// fractions: `value * denominator <= numerator * 10^exp` and
/// `(numerator * 10^exp - value * denominator) * 10^7 < numerator * 10^exp`.
pub proof fn lemma_sqrt_price_precision(
    sqrt_price: u128,
    decimals_a: u8,
    decimals_b: u8,
    price: Price,
)
    requires
        sqrt_price_to_price_spec(true, sqrt_price, decimals_a, decimals_b) == Ok::<
            Price,
            ErrorCode,
        >(price),
        x64_price_spec(sqrt_price as nat, decimals_a as nat, decimals_b as nat) >= TWO_64,
        sqrt_price * sqrt_price / (TWO_64 as int) >= 20_000_000,
    ensures
        price.value * ratio_denominator(decimals_a as nat, decimals_b as nat) <= ratio_numerator(
            sqrt_price as nat,
            decimals_a as nat,
            decimals_b as nat,
        ) * pow10(price.exp as nat),
        (ratio_numerator(sqrt_price as nat, decimals_a as nat, decimals_b as nat) * pow10(
            price.exp as nat,
        ) - price.value * ratio_denominator(decimals_a as nat, decimals_b as nat)) * pow10(7)
            < ratio_numerator(sqrt_price as nat, decimals_a as nat, decimals_b as nat) * pow10(
            price.exp as nat,
        ),
{
    lemma_pow10_values();
    let x64 = x64_price_spec(sqrt_price as nat, decimals_a as nat, decimals_b as nat);
    let numerator = ratio_numerator(sqrt_price as nat, decimals_a as nat, decimals_b as nat) as int;
    let denominator = ratio_denominator(decimals_a as nat, decimals_b as nat) as int;
    let factor = pow10(price.exp as nat) as int;
    let base = TWO_64 as int;
    let xf = x64 * factor;
    if sqrt_price == 0 {
        let square = (sqrt_price as nat) * (sqrt_price as nat);
        assert(square == 0) by (nonlinear_arith)
            requires
                square == (sqrt_price as nat) * (sqrt_price as nat),
                sqrt_price == 0,
        ;
        assert(square / (TWO_64 as nat) == 0);
        if decimals_a >= decimals_b {
            let step = pow10((decimals_a - decimals_b) as nat);
            assert(0 * step == 0) by (nonlinear_arith);
        } else {
            let step = pow10((decimals_b - decimals_a) as nat);
            lemma_pow10_monotonic(0, (decimals_b - decimals_a) as nat);
            assert(0nat / step == 0) by (nonlinear_arith)
                requires
                    step > 0,
            ;
        }
        assert(x64 == 0);
    }
    assert(price_of_x64(x64) == Ok::<Price, ErrorCode>(price));
    lemma_pow10_monotonic(0, price.exp as nat);
    lemma_price_value_is_floor(x64, price);
    lemma_price_fills_digits(x64, price);
    lemma_x64_price_bounds(sqrt_price as nat, decimals_a as nat, decimals_b as nat);
    assert(xf >= 2 * (base * 10_000_000));
    if decimals_a >= decimals_b {
        let step = pow10((decimals_a - decimals_b) as nat) as int;
        lemma_pow10_monotonic(0, (decimals_a - decimals_b) as nat);
        let unscaled = (sqrt_price * sqrt_price) as int / base;
        assert(xf >= 2 * (step * factor * 10_000_000)) by (nonlinear_arith)
            requires
                xf == x64 * factor,
                x64 == unscaled * step,
                unscaled >= 20_000_000,
                step >= 1,
                factor >= 1,
        ;
        assert((step * factor + base) * 10_000_000 == step * factor * 10_000_000 + base
            * 10_000_000) by (nonlinear_arith);
        assert(x64 * base >= 0) by (nonlinear_arith)
            requires
                x64 >= 0,
                base >= 0,
        ;
        assert(price.value * base >= 0) by (nonlinear_arith)
            requires
                price.value >= 0,
                base >= 0,
        ;
        lemma_two_roundings(numerator, base, x64 as int, step, price.value as int, factor, base);
        assert(denominator == base * base);
    } else {
        let scale = pow10((decimals_b - decimals_a) as nat) as int;
        lemma_pow10_monotonic(0, (decimals_b - decimals_a) as nat);
        let unit = base * scale;
        assert(unit >= 1) by (nonlinear_arith)
            requires
                unit == base * scale,
                base >= 1,
                scale >= 1,
        ;
        assert(xf >= 2 * (factor * 10_000_000)) by (nonlinear_arith)
            requires
                xf == x64 * factor,
                x64 >= 20_000_000,
                factor >= 1,
        ;
        assert((1 * factor + base) * 10_000_000 == factor * 10_000_000 + base * 10_000_000)
            by (nonlinear_arith);
        assert(x64 * unit >= 0) by (nonlinear_arith)
            requires
                x64 >= 0,
                unit >= 0,
        ;
        assert(price.value * base >= 0) by (nonlinear_arith)
            requires
                price.value >= 0,
                base >= 0,
        ;
        lemma_two_roundings(numerator, unit, x64 as int, 1, price.value as int, factor, base);
        assert(denominator == base * unit) by (nonlinear_arith)
            requires
                denominator == base * base * scale,
                unit == base * scale,
        ;
    }
}

/// What `u64_div_to_price` returns: the quotient with the exponent that the
/// denominator picks, rounded down.
pub open spec fn u64_div_to_price_spec(numerator: u64, denominator: u64) -> Price {
    let exp = division_exp(denominator as nat);
    Price { value: (numerator * pow10(exp) / (denominator as int)) as u64, exp: exp as u64 }
}

proof fn lemma_scaled_quotient_at_most(numerator: int, factor: int, denominator: int)
    requires
        0 <= numerator,
        0 < factor <= denominator,
    ensures
        0 <= numerator * factor / denominator <= numerator,
{
    assert(0 <= numerator * factor <= numerator * denominator) by (nonlinear_arith)
        requires
            0 <= numerator,
            0 < factor <= denominator,
    ;
    assert(numerator * factor / denominator <= numerator) by (nonlinear_arith)
        requires
            0 <= numerator * factor <= numerator * denominator,
            0 < denominator,
    ;
    assert(0 <= numerator * factor / denominator) by (nonlinear_arith)
        requires
            0 <= numerator * factor,
            0 < denominator,
    ;
}

/// The price `numerator / denominator`, with as many decimals as keep the
/// value within 64 bits. The denominator must not be zero.
pub fn u64_div_to_price(numerator: u64, denominator: u64) -> (r: Price)
    requires
        denominator != 0,
    ensures
        r == u64_div_to_price_spec(numerator, denominator),
{
    let (exp, ten_pow_exp) = division_precision_for(denominator);
    proof {
        lemma_pow10_values();
        lemma_pow10_monotonic(0, exp as nat);
        lemma_pow10_monotonic(exp as nat, 18);
        lemma_product_bound(
            numerator as int,
            ten_pow_exp as int,
            u64::MAX as int,
            1_000_000_000_000_000_000,
        );
        lemma_scaled_quotient_at_most(numerator as int, ten_pow_exp as int, denominator as int);
    }
    let numerator_scaled: u128 = u128_mul(numerator as u128, ten_pow_exp as u128);
    let price_value: u128 = u128_div(numerator_scaled, denominator as u128);
    Price { value: price_value as u64, exp }
}

/// `value * num / denom`, rounded down.
pub open spec fn mul_div_floor_spec(value: u64, num: u64, denom: u64) -> int {
    value * num / (denom as int)
}

/// `MulDiv::mul_div_floor` of `muldiv` on `u64`: `value * num / denom` with
/// the product taken in 128 bits and the quotient rounded down, or `None`
/// where the quotient does not fit in 64 bits. The outside function panics on
/// a zero `denom`.
#[verifier::external_body]
pub(crate) fn mul_div_floor(value: u64, num: u64, denom: u64) -> (r: Option<u64>)
    requires
        denom != 0,
    ensures
        mul_div_floor_spec(value, num, denom) <= u64::MAX ==> r == Some(
            mul_div_floor_spec(value, num, denom) as u64,
        ),
        mul_div_floor_spec(value, num, denom) > u64::MAX ==> r.is_none(),
{
    value.mul_div_floor(num, denom)
}

} // verus!
