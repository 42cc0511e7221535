//! Decimal fixed-point ratios with twelve fractional digits.

use vstd::prelude::*;

verus! {

/// Number of units that make up the ratio 1.0.
pub const SCALE: u64 = 1_000_000_000_000;

/// Number of fractional decimal digits of a ratio.
pub const SCALE_DIGITS: u32 = 12;

/// Largest number of units a ratio may hold (the ratio 1 000 000.0).
pub const MAX_UNITS: u64 = 1_000_000_000_000_000_000;

/// Ten to the power `n`.
pub open spec fn pow10(n: nat) -> nat
    decreases n,
{
    if n == 0 {
        1
    } else {
        10 * pow10((n - 1) as nat)
    }
}

/// Units of the decimal number `mantissa * 10^-scale`, truncated toward zero
/// to twelve fractional digits. Meaningful for a non-negative mantissa.
pub open spec fn decimal_units(mantissa: int, scale: nat) -> int {
    if scale <= SCALE_DIGITS {
        mantissa * pow10((SCALE_DIGITS - scale) as nat)
    } else {
        mantissa / (pow10((scale - SCALE_DIGITS) as nat) as int)
    }
}

/// `amount * units / SCALE`, truncated: the whole part of an integer amount
/// multiplied by a ratio of `units` units.
pub open spec fn truncated_product(amount: nat, units: nat) -> nat {
    (amount * units) / (SCALE as nat)
}

/// Units of the reciprocal of a ratio of `units` units, truncated.
pub open spec fn inverse_units(units: nat) -> nat
    recommends
        units > 0,
{
    ((SCALE as nat) * (SCALE as nat)) / units
}

/// Why a decimal number cannot be held as a ratio.
#[derive(Clone, Copy, Debug, PartialEq, Eq, Structural)]
pub enum RatioError {
    /// The number is below zero.
    Negative,
    /// The number is above the largest ratio.
    OutOfRange,
}

/// A decimal number as it arrives from outside: `mantissa * 10^-scale`.
#[derive(Clone, Copy, Debug, PartialEq, Eq, Structural)]
pub struct Decimal {
    pub mantissa: i128,
    pub scale: u32,
}

/// A non-negative decimal number with twelve fractional digits, at most
/// one million. Its view is the number of 10^-12 units it holds.
#[derive(Clone, Copy, Debug, PartialEq, Eq, Structural)]
pub struct FixedPointRatio {
    units: u64,
}

impl Decimal {
    /// The units of the ratio nearest below this number, or the reason it
    /// has none.
    pub open spec fn as_units(self) -> Result<nat, RatioError> {
        if self.mantissa < 0 {
            Err(RatioError::Negative)
        } else if decimal_units(self.mantissa as int, self.scale as nat) > MAX_UNITS {
            Err(RatioError::OutOfRange)
        } else {
            Ok(decimal_units(self.mantissa as int, self.scale as nat) as nat)
        }
    }
}

/// The units that a decimal number is read as are those of a ratio.
pub proof fn lemma_as_units_in_range(number: Decimal)
    ensures
        number.as_units().is_ok() ==> number.as_units().unwrap() <= MAX_UNITS,
        number.as_units().is_ok() ==> number.as_units().unwrap() == decimal_units(
            number.mantissa as int,
            number.scale as nat,
        ),
{
    if number.as_units().is_ok() {
        let mantissa = number.mantissa as int;
        if number.scale <= SCALE_DIGITS {
            let factor = pow10((SCALE_DIGITS - number.scale) as nat) as int;
            lemma_pow10_positive((SCALE_DIGITS - number.scale) as nat);
            assert(mantissa * factor >= 0) by (nonlinear_arith)
                requires
                    mantissa >= 0,
                    factor >= 1,
            ;
        } else {
            let divisor = pow10((number.scale - SCALE_DIGITS) as nat) as int;
            lemma_pow10_positive((number.scale - SCALE_DIGITS) as nat);
            assert(mantissa / divisor >= 0) by (nonlinear_arith)
                requires
                    mantissa >= 0,
                    divisor >= 1,
            ;
        }
    }
}

/// The outcome of making a ratio, with the ratio in units.
pub open spec fn ratio_outcome(outcome: Result<FixedPointRatio, RatioError>) -> Result<
    nat,
    RatioError,
> {
    match outcome {
        Ok(ratio) => Ok(ratio@),
        Err(e) => Err(e),
    }
}

impl View for FixedPointRatio {
    type V = nat;

    closed spec fn view(&self) -> nat {
        self.units as nat
    }
}

/// A power of ten is at least one.
pub proof fn lemma_pow10_positive(n: nat)
    ensures
        pow10(n) >= 1,
    decreases n,
{
    if n > 0 {
        lemma_pow10_positive((n - 1) as nat);
    }
}

/// A greater exponent gives a power of ten that is no smaller.
pub proof fn lemma_pow10_monotonic(a: nat, b: nat)
    requires
        a <= b,
    ensures
        pow10(a) <= pow10(b),
    decreases b,
{
    if a < b {
        lemma_pow10_monotonic(a, (b - 1) as nat);
    }
}

/// The powers of ten that the bounds of the arithmetic rest on.
proof fn lemma_pow10_values()
    ensures
        pow10(12) == 1_000_000_000_000nat,
        pow10(38) == 100_000_000_000_000_000_000_000_000_000_000_000_000nat,
        pow10(39) == 1_000_000_000_000_000_000_000_000_000_000_000_000_000nat,
{
    reveal_with_fuel(pow10, 14);
    assert(pow10(24) == 1_000_000_000_000nat * pow10(12));
}

/// Ten to the power `n`, for powers that fit in 128 bits.
fn pow10_exec(n: u32) -> (p: u128)
    requires
        n <= 38,
    ensures
        p == pow10(n as nat),
        p >= 1,
{
    let mut p: u128 = 1;
    let mut i: u32 = 0;
    while i < n
        invariant
            i <= n <= 38,
            p == pow10(i as nat),
        decreases n - i,
    {
        proof {
            lemma_pow10_monotonic((i + 1) as nat, 38);
            lemma_pow10_values();
        }
        p = p * 10;
        i = i + 1;
    }
    proof {
        lemma_pow10_positive(n as nat);
    }
    p
}

impl FixedPointRatio {
    /// Every ratio holds at most `MAX_UNITS` units.
    #[verifier::type_invariant]
    pub open spec fn wf(self) -> bool {
        self@ <= MAX_UNITS
    }

    /// The ratio of `units` units.
    pub closed spec fn of_units(units: nat) -> FixedPointRatio
        recommends
            units <= MAX_UNITS,
    {
        FixedPointRatio { units: units as u64 }
    }

    /// A ratio is the ratio of its units, and no other holds as many.
    pub proof fn lemma_of_units(self)
        ensures
            Self::of_units(self@) == self,
    {
    }

    /// The ratio of `units` units holds `units` units.
    pub proof fn lemma_units_of(units: nat)
        requires
            units <= MAX_UNITS,
        ensures
            Self::of_units(units)@ == units,
            Self::of_units(units).wf(),
    {
    }

    /// The ratio 0.0.
    pub fn zero() -> (r: Self)
        ensures
            r@ == 0,
    {
        FixedPointRatio { units: 0 }
    }

    /// The ratio 1.0.
    pub fn one() -> (r: Self)
        ensures
            r@ == SCALE,
    {
        FixedPointRatio { units: SCALE }
    }

    /// The ratio of `units` units, if there is one.
    pub fn from_units(units: u64) -> (r: Option<Self>)
        ensures
            units <= MAX_UNITS ==> r.is_some() && r.unwrap()@ == units,
            units > MAX_UNITS ==> r.is_none(),
    {
        if units <= MAX_UNITS {
            Some(FixedPointRatio { units })
        } else {
            None
        }
    }

    /// The ratio nearest below the decimal number `mantissa * 10^-scale`.
    ///
    /// Digits past the twelfth fractional digit are cut off. A negative
    /// number is refused, and so is one above the largest ratio.
    pub fn from_decimal(mantissa: i128, scale: u32) -> (r: Result<Self, RatioError>)
        ensures
            ratio_outcome(r) == (Decimal { mantissa, scale }).as_units(),
    {
        if mantissa < 0 {
            return Err(RatioError::Negative);
        }
        let m: u128 = mantissa as u128;
        if scale <= SCALE_DIGITS {
            let factor: u128 = pow10_exec(SCALE_DIGITS - scale);
            proof {
                lemma_pow10_monotonic((SCALE_DIGITS - scale) as nat, 12);
                lemma_pow10_values();
            }
            if m > MAX_UNITS as u128 {
                assert(m * factor >= m) by (nonlinear_arith)
                    requires
                        factor >= 1,
                ;
                return Err(RatioError::OutOfRange);
            }
            assert(m * factor <= 1_000_000_000_000_000_000 * 1_000_000_000_000) by (nonlinear_arith)
                requires
                    m <= 1_000_000_000_000_000_000,
                    factor <= 1_000_000_000_000,
            ;
            let units: u128 = m * factor;
            if units > MAX_UNITS as u128 {
                Err(RatioError::OutOfRange)
            } else {
                Ok(FixedPointRatio { units: units as u64 })
            }
        } else {
            let excess: u32 = scale - SCALE_DIGITS;
            if excess > 38 {
                proof {
                    lemma_pow10_monotonic(39, excess as nat);
                    lemma_pow10_values();
                    let d = pow10(excess as nat) as int;
                    assert((m as int) / d == 0) by (nonlinear_arith)
                        requires
                            0 <= m < d,
                    ;
                }
                Ok(FixedPointRatio { units: 0 })
            } else {
                let divisor: u128 = pow10_exec(excess);
                let units: u128 = m / divisor;
                if units > MAX_UNITS as u128 {
                    Err(RatioError::OutOfRange)
                } else {
                    Ok(FixedPointRatio { units: units as u64 })
                }
            }
        }
    }

    /// The ratio nearest below `number`, as `from_decimal` gives it.
    pub fn from_number(number: Decimal) -> (r: Result<Self, RatioError>)
        ensures
            ratio_outcome(r) == number.as_units(),
    {
        Self::from_decimal(number.mantissa, number.scale)
    }

    /// The number of units the ratio holds.
    pub fn units(&self) -> (u: u64)
        ensures
            u == self@,
            u <= MAX_UNITS,
    {
        proof {
            use_type_invariant(self);
        }
        self.units
    }

    /// Whether the ratio is 0.0.
    pub fn is_zero(&self) -> (z: bool)
        ensures
            z == (self@ == 0),
    {
        self.units == 0
    }

    /// The reciprocal, truncated to twelve fractional digits.
    ///
    /// There is none for the ratio 0.0, nor where the reciprocal is above
    /// the largest ratio.
    pub fn checked_inverse(&self) -> (r: Option<Self>)
        ensures
            r.is_some() <==> self@ > 0 && inverse_units(self@) <= MAX_UNITS,
            r.is_some() ==> r.unwrap()@ == inverse_units(self@),
    {
        if self.units == 0 {
            return None;
        }
        let one: u128 = SCALE as u128;
        let square: u128 = one * one;
        let inverse: u128 = square / (self.units as u128);
        if inverse > MAX_UNITS as u128 {
            None
        } else {
            Some(FixedPointRatio { units: inverse as u64 })
        }
    }

    /// The whole part of `amount` multiplied by the ratio, if it fits in
    /// 64 bits.
    pub fn apply_truncating(&self, amount: u64) -> (r: Option<u64>)
        ensures
            r.is_some() <==> truncated_product(amount as nat, self@) <= u64::MAX,
            r.is_some() ==> r.unwrap() == truncated_product(amount as nat, self@),
    {
        assert((amount as int) * (self.units as int) <= 0xffff_ffff_ffff_ffff
            * 0xffff_ffff_ffff_ffff) by (nonlinear_arith)
            requires
                0 <= amount <= 0xffff_ffff_ffff_ffff,
                0 <= self.units <= 0xffff_ffff_ffff_ffff,
        ;
        let product: u128 = (amount as u128) * (self.units as u128);
        let whole: u128 = product / (SCALE as u128);
        if whole > u64::MAX as u128 {
            None
        } else {
            Some(whole as u64)
        }
    }
}

} // verus!
