//! Unsigned integers of up to 256 bits, held as 64-bit words, and the
//! big-integer arithmetic that the price conversions run on.
//!
//! The arithmetic itself is done by the fixed-width integer types of
//! `raydium_amm_v3` (`U256`) and `decimal_wad` (`U192`, `U128`, `Decimal`).
//! Each operation used is declared here once, with the result it is taken to
//! return; nothing in this crate proves those declarations.

use decimal_wad::decimal::Decimal;
use decimal_wad::decimal::U192;
use decimal_wad::rate::U128;
use raydium_amm_v3::libraries::U256;
use vstd::prelude::*;

verus! {

/// Two to the power 64.
pub const TWO_64: u128 = 0x1_0000_0000_0000_0000;

/// Two to the power 128.
pub open spec fn two_128() -> int {
    0x1_0000_0000_0000_0000_0000_0000_0000_0000int
}

/// Two to the power 192.
pub open spec fn two_192() -> int {
    0x1_0000_0000_0000_0000_0000_0000_0000_0000_0000_0000_0000_0000int
}

/// Two to the power 256.
pub open spec fn two_256() -> int {
    0x1_0000_0000_0000_0000_0000_0000_0000_0000_0000_0000_0000_0000_0000_0000_0000_0000int
}

/// One unit of an 18-decimal fixed-point number.
pub const WAD: u64 = 1_000_000_000_000_000_000;

/// Half a unit of an 18-decimal fixed-point number.
pub const HALF_WAD: u64 = 500_000_000_000_000_000;

/// An unsigned integer below 2^256, as four 64-bit words, least significant
/// first.
#[derive(Clone, Copy, Debug)]
pub struct Wide {
    pub w0: u64,
    pub w1: u64,
    pub w2: u64,
    pub w3: u64,
}

impl View for Wide {
    type V = int;

    /// The number that the four words spell.
    open spec fn view(&self) -> int {
        self.w0 + self.w1 * TWO_64 + self.w2 * two_128() + self.w3 * two_192()
    }
}

impl Wide {
    /// Whether the number fits in 192 bits.
    pub open spec fn fits_192(&self) -> bool {
        self.w3 == 0
    }

    /// The wide integer equal to a 64-bit value.
    pub fn from_u64(value: u64) -> (r: Wide)
        ensures
            r@ == value,
            r.w1 == 0 && r.w2 == 0 && r.w3 == 0,
    {
        Wide { w0: value, w1: 0, w2: 0, w3: 0 }
    }

    /// The wide integer equal to a 128-bit value.
    pub fn from_u128(value: u128) -> (r: Wide)
        ensures
            r@ == value,
            r.w2 == 0 && r.w3 == 0,
    {
        let low: u64 = (value % TWO_64) as u64;
        let high: u64 = (value / TWO_64) as u64;
        Wide { w0: low, w1: high, w2: 0, w3: 0 }
    }

    /// The value as a `u128`, where it fits.
    pub fn to_u128(&self) -> (r: Option<u128>)
        ensures
            r == (if self@ < two_128() { Some(self@ as u128) } else { None }),
    {
        if self.w2 != 0 || self.w3 != 0 {
            None
        } else {
            let high: u128 = self.w1 as u128;
            Some(high * TWO_64 + self.w0 as u128)
        }
    }

    /// The value as a `u64`, where it fits.
    pub fn to_u64(&self) -> (r: Option<u64>)
        ensures
            r == (if self@ < TWO_64 { Some(self@ as u64) } else { None }),
    {
        if self.w1 != 0 || self.w2 != 0 || self.w3 != 0 {
            None
        } else {
            Some(self.w0)
        }
    }
}

/// `U256 * U256` of `raydium_amm_v3`: the product of two 256-bit integers.
/// The outside operation panics when the product does not fit in 256 bits, so
/// the caller must rule that out; the product is then exact.
#[verifier::external_body]
pub(crate) fn u256_mul(a: Wide, b: Wide) -> (r: Wide)
    requires
        a@ * b@ < two_256(),
    ensures
        r@ == a@ * b@,
{
    let r = U256([a.w0, a.w1, a.w2, a.w3]) * U256([b.w0, b.w1, b.w2, b.w3]);
    Wide { w0: r.0[0], w1: r.0[1], w2: r.0[2], w3: r.0[3] }
}

/// `U256 / U256` of `raydium_amm_v3`: the quotient of two 256-bit integers,
/// rounded down. The outside operation panics on a zero divisor.
#[verifier::external_body]
pub(crate) fn u256_div(a: Wide, b: Wide) -> (r: Wide)
    requires
        b@ != 0,
    ensures
        r@ == a@ / b@,
{
    let r = U256([a.w0, a.w1, a.w2, a.w3]) / U256([b.w0, b.w1, b.w2, b.w3]);
    Wide { w0: r.0[0], w1: r.0[1], w2: r.0[2], w3: r.0[3] }
}

/// `U256 >> 64` of `raydium_amm_v3`: a 256-bit integer with its low 64 bits
/// dropped, that is, divided by 2^64 and rounded down.
#[verifier::external_body]
pub(crate) fn u256_shr_64(a: Wide) -> (r: Wide)
    ensures
        r@ == a@ / (TWO_64 as int),
{
    let r = U256([a.w0, a.w1, a.w2, a.w3]) >> U256::from(64);
    Wide { w0: r.0[0], w1: r.0[1], w2: r.0[2], w3: r.0[3] }
}

/// `U192 * U192` of `decimal_wad`: the product of two 192-bit integers. The
/// outside operation panics when the product does not fit in 192 bits, so the
/// caller must rule that out; the product is then exact.
#[verifier::external_body]
pub(crate) fn u192_mul(a: Wide, b: Wide) -> (r: Wide)
    requires
        a.fits_192(),
        b.fits_192(),
        a@ * b@ < two_192(),
    ensures
        r@ == a@ * b@,
        r.fits_192(),
{
    let r = U192([a.w0, a.w1, a.w2]) * U192([b.w0, b.w1, b.w2]);
    Wide { w0: r.0[0], w1: r.0[1], w2: r.0[2], w3: 0 }
}

/// `U192 / U192` of `decimal_wad`: the quotient of two 192-bit integers,
/// rounded down. The outside operation panics on a zero divisor.
#[verifier::external_body]
pub(crate) fn u192_div(a: Wide, b: Wide) -> (r: Wide)
    requires
        a.fits_192(),
        b.fits_192(),
        b@ != 0,
    ensures
        r@ == a@ / b@,
        r.fits_192(),
{
    let r = U192([a.w0, a.w1, a.w2]) / U192([b.w0, b.w1, b.w2]);
    Wide { w0: r.0[0], w1: r.0[1], w2: r.0[2], w3: 0 }
}

/// `U192 >> 64` of `decimal_wad`: a 192-bit integer with its low 64 bits
/// dropped, that is, divided by 2^64 and rounded down.
#[verifier::external_body]
pub(crate) fn u192_shr_64(a: Wide) -> (r: Wide)
    requires
        a.fits_192(),
    ensures
        r@ == a@ / (TWO_64 as int),
        r.fits_192(),
{
    let r = U192([a.w0, a.w1, a.w2]) >> U192::from(64);
    Wide { w0: r.0[0], w1: r.0[1], w2: r.0[2], w3: 0 }
}

/// `U128 * U128` of `decimal_wad`: the product of two 128-bit integers. The
/// outside operation panics when the product does not fit in 128 bits, so the
/// caller must rule that out; the product is then exact.
#[verifier::external_body]
pub(crate) fn u128_mul(a: u128, b: u128) -> (r: u128)
    requires
        a * b <= u128::MAX,
    ensures
        r == a * b,
{
    (U128::from(a) * U128::from(b)).as_u128()
}

/// `U128 / U128` of `decimal_wad`: the quotient of two 128-bit integers,
/// rounded down. The outside operation panics on a zero divisor.
#[verifier::external_body]
pub(crate) fn u128_div(a: u128, b: u128) -> (r: u128)
    requires
        b != 0,
    ensures
        r == a / b,
{
    (U128::from(a) / U128::from(b)).as_u128()
}

/// `Decimal * u64` of `decimal_wad`: an 18-decimal fixed-point number, given
/// by its scaled value, times an integer. The outside operation panics when
/// the scaled product does not fit in 192 bits, so the caller must rule that
/// out; the scaled product is then exact.
#[verifier::external_body]
pub(crate) fn decimal_mul(scaled: Wide, factor: u64) -> (r: Wide)
    requires
        scaled.fits_192(),
        scaled@ * factor < two_192(),
    ensures
        r@ == scaled@ * factor,
        r.fits_192(),
{
    let r = Decimal(U192([scaled.w0, scaled.w1, scaled.w2])) * factor;
    Wide { w0: r.0.0[0], w1: r.0.0[1], w2: r.0.0[2], w3: 0 }
}

/// What `Decimal::try_round` returns for a scaled value: the value plus half
/// a unit, divided by the unit and rounded down, where that sum fits in 192
/// bits and the quotient in 64.
pub open spec fn rounded(scaled: int) -> Option<u64> {
    let quotient = (scaled + HALF_WAD) / (WAD as int);
    if scaled + HALF_WAD < two_192() && quotient <= u64::MAX {
        Some(quotient as u64)
    } else {
        None
    }
}

/// `Decimal::try_round::<u64>` of `decimal_wad`: an 18-decimal fixed-point
/// number, given by its scaled value, rounded to the nearest integer (halves
/// upward). The outside function reports an overflow where adding half a unit
/// leaves 192 bits or the result leaves 64 bits; that becomes `None`.
#[verifier::external_body]
pub(crate) fn decimal_try_round(scaled: Wide) -> (r: Option<u64>)
    requires
        scaled.fits_192(),
    ensures
        r == rounded(scaled@),
{
    Decimal(U192([scaled.w0, scaled.w1, scaled.w2])).try_round::<u64>().ok()
}

/// `Decimal::from(u64)` of `decimal_wad`: the 18-decimal fixed-point number
/// equal to an integer, given by its scaled value, the integer times the
/// unit.
#[verifier::external_body]
pub(crate) fn decimal_from_u64(value: u64) -> (r: Wide)
    ensures
        r@ == value * WAD,
        r.fits_192(),
{
    let r = Decimal::from(value);
    Wide { w0: r.0.0[0], w1: r.0.0[1], w2: r.0.0[2], w3: 0 }
}

/// `Decimal / u64` of `decimal_wad`: an 18-decimal fixed-point number, given
/// by its scaled value, divided by an integer and rounded down in its last
/// decimal. The outside operation panics on a zero divisor.
#[verifier::external_body]
pub(crate) fn decimal_div(scaled: Wide, divisor: u64) -> (r: Wide)
    requires
        scaled.fits_192(),
        divisor != 0,
    ensures
        r@ == scaled@ / (divisor as int),
        r.fits_192(),
{
    let r = Decimal(U192([scaled.w0, scaled.w1, scaled.w2])) / divisor;
    Wide { w0: r.0.0[0], w1: r.0.0[1], w2: r.0.0[2], w3: 0 }
}

} // verus!
