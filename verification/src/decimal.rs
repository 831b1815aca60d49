//! Fixed-point decimals with 18 fractional digits, as used throughout the
//! protocol for exchange rates, fees and shares.
//!
//! A [`Decimal`] is its number of *atomics*: the value times 10^18. The
//! products and quotients that need 256-bit intermediates are computed by
//! `cosmwasm_std::Decimal`; the rest is plain integer arithmetic on atomics.
use vstd::prelude::*;

verus! {

/// 10^18, the scale of a [`Decimal`].
pub const DECIMAL_FRACTIONAL: u128 = 1_000_000_000_000_000_000u128;

/// 10^n.
pub open spec fn pow10(n: nat) -> nat
    decreases n,
{
    if n == 0 {
        1
    } else {
        10 * pow10((n - 1) as nat)
    }
}

/// The atomics of `a * b` before the range check: floor(a * b / 10^18).
pub open spec fn mul_atomics(a: int, b: int) -> int {
    (a * b) / (DECIMAL_FRACTIONAL as int)
}

/// The atomics of `a / b` before the range check: floor(a * 10^18 / b).
pub open spec fn div_atomics(a: int, b: int) -> int {
    (a * (DECIMAL_FRACTIONAL as int)) / b
}

/// Whether an integer fits in a `u128`.
pub open spec fn fits_u128(x: int) -> bool {
    0 <= x <= u128::MAX
}

/// The atomics of `Decimal::from_atomics(atomics, decimal_places)`, or `None`
/// where the value leaves the range.
pub open spec fn from_atomics_spec(atomics: u128, decimal_places: u32) -> Option<u128> {
    if decimal_places < 18 {
        let v = atomics * pow10((18 - decimal_places) as nat);
        if fits_u128(v) {
            Some(v as u128)
        } else {
            None
        }
    } else {
        Some((atomics as nat / pow10((decimal_places - 18) as nat)) as u128)
    }
}

/// The atomics of `Decimal::checked_from_ratio(n, d)`, or `None` where
/// `d` is zero or the ratio leaves the range.
pub open spec fn from_ratio_spec(n: u128, d: u128) -> Option<u128> {
    if d == 0 {
        None
    } else if fits_u128(div_atomics(n as int, d as int)) {
        Some(div_atomics(n as int, d as int) as u128)
    } else {
        None
    }
}

/// A non-negative fixed-point number with 18 fractional digits.
#[derive(Clone, Copy, Debug, PartialEq, Eq, Structural)]
pub struct Decimal {
    /// The value times 10^18.
    pub atomics: u128,
}

impl Decimal {
    /// The decimal whose atomics are `atomics`.
    pub fn raw(atomics: u128) -> (d: Decimal)
        ensures
            d.atomics == atomics,
    {
        Decimal { atomics }
    }

    /// 1.0
    pub fn one() -> (d: Decimal)
        ensures
            d.atomics == DECIMAL_FRACTIONAL,
    {
        Decimal { atomics: DECIMAL_FRACTIONAL }
    }

    /// 0.0
    pub fn zero() -> (d: Decimal)
        ensures
            d.atomics == 0,
    {
        Decimal { atomics: 0 }
    }

    /// `x` percent.
    pub fn percent(x: u64) -> (d: Decimal)
        ensures
            d.atomics == x * 10_000_000_000_000_000,
    {
        Decimal { atomics: (x as u128) * 10_000_000_000_000_000u128 }
    }

    /// The value times 10^18.
    pub fn atomics(&self) -> (a: u128)
        ensures
            a == self.atomics,
    {
        self.atomics
    }

    /// Whether the value is zero.
    pub fn is_zero(&self) -> (b: bool)
        ensures
            b == (self.atomics == 0),
    {
        self.atomics == 0
    }

    /// `self + other`; the sum must stay in range.
    pub fn add(self, other: Decimal) -> (d: Decimal)
        requires
            self.atomics + other.atomics <= u128::MAX,
        ensures
            d.atomics == self.atomics + other.atomics,
    {
        Decimal { atomics: self.atomics + other.atomics }
    }

    /// `self + other`, or `None` out of range.
    pub fn checked_add(self, other: Decimal) -> (d: Option<Decimal>)
        ensures
            d == (if self.atomics + other.atomics <= u128::MAX {
                Some(Decimal { atomics: (self.atomics + other.atomics) as u128 })
            } else {
                None::<Decimal>
            }),
    {
        match self.atomics.checked_add(other.atomics) {
            Some(a) => Some(Decimal { atomics: a }),
            None => None,
        }
    }

    /// `self - other`; `other` must not exceed `self`.
    pub fn sub(self, other: Decimal) -> (d: Decimal)
        requires
            other.atomics <= self.atomics,
        ensures
            d.atomics == self.atomics - other.atomics,
    {
        Decimal { atomics: self.atomics - other.atomics }
    }

    /// `self * other`; the product must stay in range.
    pub fn mul(self, other: Decimal) -> (d: Decimal)
        requires
            mul_atomics(self.atomics as int, other.atomics as int) <= u128::MAX,
        ensures
            d.atomics == mul_atomics(self.atomics as int, other.atomics as int),
    {
        let r = decimal_checked_mul(self.atomics, other.atomics);
        Decimal { atomics: r.unwrap() }
    }

    /// `self * other`, or `None` out of range.
    pub fn checked_mul(self, other: Decimal) -> (d: Option<Decimal>)
        ensures
            d == (if fits_u128(mul_atomics(self.atomics as int, other.atomics as int)) {
                Some(Decimal { atomics: mul_atomics(self.atomics as int, other.atomics as int) as u128 })
            } else {
                None::<Decimal>
            }),
    {
        match decimal_checked_mul(self.atomics, other.atomics) {
            Some(a) => Some(Decimal { atomics: a }),
            None => None,
        }
    }

    /// `self / other`; `other` must be non-zero and the quotient in range.
    pub fn div(self, other: Decimal) -> (d: Decimal)
        requires
            other.atomics != 0,
            div_atomics(self.atomics as int, other.atomics as int) <= u128::MAX,
        ensures
            d.atomics == div_atomics(self.atomics as int, other.atomics as int),
    {
        let r = decimal_from_ratio(self.atomics, other.atomics);
        Decimal { atomics: r.unwrap() }
    }

    /// `self / other`, or `None` where `other` is zero or the quotient is out of range.
    pub fn checked_div(self, other: Decimal) -> (d: Option<Decimal>)
        ensures
            d == (match from_ratio_spec(self.atomics, other.atomics) {
                Some(a) => Some(Decimal { atomics: a }),
                None => None::<Decimal>,
            }),
    {
        match decimal_from_ratio(self.atomics, other.atomics) {
            Some(a) => Some(Decimal { atomics: a }),
            None => None,
        }
    }

    /// The decimal `numerator / denominator`, or `None` where the denominator
    /// is zero or the ratio is out of range.
    pub fn checked_from_ratio(numerator: u128, denominator: u128) -> (d: Option<Decimal>)
        ensures
            d == (match from_ratio_spec(numerator, denominator) {
                Some(a) => Some(Decimal { atomics: a }),
                None => None::<Decimal>,
            }),
    {
        match decimal_from_ratio(numerator, denominator) {
            Some(a) => Some(Decimal { atomics: a }),
            None => None,
        }
    }

    /// The decimal `atomics * 10^-decimal_places`, or `None` out of range.
    pub fn from_atomics(atomics: u128, decimal_places: u32) -> (d: Option<Decimal>)
        ensures
            d == (match from_atomics_spec(atomics, decimal_places) {
                Some(a) => Some(Decimal { atomics: a }),
                None => None::<Decimal>,
            }),
    {
        match decimal_from_atomics(atomics, decimal_places) {
            Some(a) => Some(Decimal { atomics: a }),
            None => None,
        }
    }

    /// The integer part, rounded down.
    pub fn to_uint_floor(self) -> (u: u128)
        ensures
            u == self.atomics / DECIMAL_FRACTIONAL,
    {
        self.atomics / DECIMAL_FRACTIONAL
    }
}

/// `cosmwasm_std::Decimal::checked_mul` on atomics: it multiplies in 256
/// bits, divides by 10^18 rounding down, and fails where the result does not
/// fit in 128 bits.
#[verifier::external_body]
fn decimal_checked_mul(a: u128, b: u128) -> (r: Option<u128>)
    ensures
        r == (if fits_u128(mul_atomics(a as int, b as int)) {
            Some(mul_atomics(a as int, b as int) as u128)
        } else {
            None::<u128>
        }),
{
    match cosmwasm_std::Decimal::raw(a).checked_mul(cosmwasm_std::Decimal::raw(b)) {
        Ok(d) => Some(d.atomics().u128()),
        Err(_) => None,
    }
}

/// `cosmwasm_std::Decimal::checked_from_ratio`: the atomics of
/// `numerator * 10^18 / denominator` rounded down, failing on a zero
/// denominator or a result beyond 128 bits.
#[verifier::external_body]
fn decimal_from_ratio(numerator: u128, denominator: u128) -> (r: Option<u128>)
    ensures
        r == from_ratio_spec(numerator, denominator),
{
    match cosmwasm_std::Decimal::checked_from_ratio(numerator, denominator) {
        Ok(d) => Some(d.atomics().u128()),
        Err(_) => None,
    }
}

/// `cosmwasm_std::Decimal::from_atomics`: scales `atomics` from
/// `decimal_places` fractional digits to 18, multiplying (and failing on
/// overflow) below 18 and dividing, rounding down, above.
#[verifier::external_body]
fn decimal_from_atomics(atomics: u128, decimal_places: u32) -> (r: Option<u128>)
    ensures
        r == from_atomics_spec(atomics, decimal_places),
{
    match cosmwasm_std::Decimal::from_atomics(atomics, decimal_places) {
        Ok(d) => Some(d.atomics().u128()),
        Err(_) => None,
    }
}

/// Converts a decimal to an integer amount carrying `decimals` fractional
/// digits: the atomics divided by 10^(18 - decimals), rounded down.
pub fn dec_to_amount(dec: Decimal, decimals: u32) -> (r: u128)
    requires
        decimals <= 18,
    ensures
        r == dec.atomics as nat / pow10((18 - decimals) as nat),
{
    let f = pow10_u128(18 - decimals);
    dec.atomics / f
}

/// 10^n as a `u128`, for n up to 38.
pub fn pow10_u128(n: u32) -> (r: u128)
    requires
        n <= 38,
    ensures
        r == pow10(n as nat),
        r > 0,
{
    let mut r: u128 = 1;
    let mut i: u32 = 0;
    while i < n
        invariant
            i <= n,
            n <= 38,
            r == pow10(i as nat),
            r > 0,
        decreases n - i,
    {
        proof {
            lemma_pow10_bound(i as nat);
        }
        r = r * 10;
        i = i + 1;
    }
    r
}

/// 10^n stays within `u128` up to n = 37 inclusive with room for one more
/// factor of ten.
pub proof fn lemma_pow10_bound(n: nat)
    requires
        n < 38,
    ensures
        pow10(n) * 10 <= u128::MAX,
        pow10(n) > 0,
    decreases n,
{
    reveal_with_fuel(pow10, 40);
    assert(pow10(37) == 10000000000000000000000000000000000000nat);
    lemma_pow10_monotone(n, 37);
}

/// 10^i <= 10^j when i <= j.
pub proof fn lemma_pow10_monotone(i: nat, j: nat)
    requires
        i <= j,
    ensures
        0 < pow10(i) <= pow10(j),
    decreases j,
{
    if i == j {
        lemma_pow10_pos(i);
    } else {
        lemma_pow10_monotone(i, (j - 1) as nat);
        lemma_pow10_pos(j);
    }
}

/// 10^n is positive.
pub proof fn lemma_pow10_pos(n: nat)
    ensures
        pow10(n) > 0,
    decreases n,
{
    if n > 0 {
        lemma_pow10_pos((n - 1) as nat);
    }
}

} // verus!
