//! The two units of account: satoshis and USD cents.
//!
//! Both are whole numbers. A value of one unit becomes a value of the other
//! only through an explicit conversion at a rate, and every conversion cuts
//! the fractional part off.

use vstd::prelude::*;
use crate::ratio::{truncated_product, FixedPointRatio};

verus! {

/// A whole number of satoshis.
#[derive(Clone, Copy, Debug, PartialEq, Eq, Structural)]
pub struct Sats {
    pub amount: u64,
}

/// A whole number of USD cents.
#[derive(Clone, Copy, Debug, PartialEq, Eq, Structural)]
pub struct UsdCents {
    pub amount: u64,
}

/// An amount of one of the two units.
#[derive(Clone, Copy, Debug, PartialEq, Eq, Structural)]
pub enum Amount {
    Sats(Sats),
    UsdCents(UsdCents),
}

impl Sats {
    /// `amount` satoshis.
    pub fn from_major(amount: u64) -> (sats: Self)
        ensures
            sats.amount == amount,
    {
        Sats { amount }
    }

    /// The number of satoshis.
    pub fn amount(&self) -> (amount: u64)
        ensures
            amount == self.amount,
    {
        self.amount
    }

    /// The cents these satoshis are worth at `cents_per_sat`, fraction cut
    /// off; `None` where that number does not fit in 64 bits.
    pub fn to_cents(&self, cents_per_sat: FixedPointRatio) -> (cents: Option<UsdCents>)
        ensures
            cents.is_some() <==> truncated_product(self.amount as nat, cents_per_sat@) <= u64::MAX,
            cents.is_some() ==> cents.unwrap().amount == truncated_product(
                self.amount as nat,
                cents_per_sat@,
            ),
    {
        match cents_per_sat.apply_truncating(self.amount) {
            Some(amount) => Some(UsdCents { amount }),
            None => None,
        }
    }
}

impl UsdCents {
    /// `amount` cents.
    pub fn from_major(amount: u64) -> (cents: Self)
        ensures
            cents.amount == amount,
    {
        UsdCents { amount }
    }

    /// The number of cents.
    pub fn amount(&self) -> (amount: u64)
        ensures
            amount == self.amount,
    {
        self.amount
    }

    /// The satoshis these cents are worth at `sats_per_cent`, fraction cut
    /// off; `None` where that number does not fit in 64 bits.
    pub fn to_sats(&self, sats_per_cent: FixedPointRatio) -> (sats: Option<Sats>)
        ensures
            sats.is_some() <==> truncated_product(self.amount as nat, sats_per_cent@) <= u64::MAX,
            sats.is_some() ==> sats.unwrap().amount == truncated_product(
                self.amount as nat,
                sats_per_cent@,
            ),
    {
        match sats_per_cent.apply_truncating(self.amount) {
            Some(amount) => Some(Sats { amount }),
            None => None,
        }
    }
}

} // verus!
