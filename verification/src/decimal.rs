//! Fixed-point numbers with 18 decimal places, for gas prices and token amounts.

use vstd::prelude::*;

verus! {

/// The number of atomic units in one whole: ten to the power 18.
pub const DECIMAL_FRACTIONAL: u128 = 1_000_000_000_000_000_000;

/// The number of decimal places.
pub const DECIMAL_PLACES: u32 = 18;

/// A non-negative number with 18 decimal places, held as its count of atomic
/// units.
#[derive(Clone, Copy, Debug, PartialEq, Eq, PartialOrd, Ord, Hash, Structural)]
pub struct Decimal {
    pub atomics: u128,
}

/// The atomic units of the product of two numbers of `a` and `b` atomic units,
/// rounded down.
pub open spec fn product_atomics(a: nat, b: nat) -> nat {
    a * b / (DECIMAL_FRACTIONAL as nat)
}

/// Calls `Decimal::checked_mul` of cosmwasm_std on the decimals of `a` and `b`
/// atomic units. Trusted: it computes the full product of the two counts,
/// divides it by ten to the power 18 rounding down, and fails exactly when the
/// quotient does not fit in 128 bits.
#[verifier::external_body]
fn checked_mul_atomics(a: u128, b: u128) -> (res: Option<u128>)
    ensures
        res == if product_atomics(a as nat, b as nat) <= u128::MAX {
            Some(product_atomics(a as nat, b as nat) as u128)
        } else {
            None
        },
{
    match cosmwasm_std::Decimal::raw(a).checked_mul(cosmwasm_std::Decimal::raw(b)) {
        Ok(product) => Some(product.atomics().u128()),
        Err(_) => None,
    }
}

impl Decimal {
    /// The number of `atomics` atomic units.
    pub fn raw(atomics: u128) -> (d: Decimal)
        ensures
            d.atomics == atomics,
    {
        Decimal { atomics }
    }

    /// Zero.
    pub fn zero() -> (d: Decimal)
        ensures
            d.atomics == 0,
    {
        Decimal { atomics: 0 }
    }

    /// One.
    pub fn one() -> (d: Decimal)
        ensures
            d.atomics == DECIMAL_FRACTIONAL,
    {
        Decimal { atomics: DECIMAL_FRACTIONAL }
    }

    /// The whole number `n`.
    pub fn whole(n: u64) -> (d: Decimal)
        ensures
            d.atomics == n * DECIMAL_FRACTIONAL,
    {
        Decimal { atomics: (n as u128) * DECIMAL_FRACTIONAL }
    }

    /// `x` hundredths.
    pub fn percent(x: u64) -> (d: Decimal)
        ensures
            d.atomics == x * 10_000_000_000_000_000,
    {
        Decimal { atomics: (x as u128) * 10_000_000_000_000_000 }
    }

    /// The count of atomic units.
    pub fn atomics(&self) -> (a: u128)
        ensures
            a == self.atomics,
    {
        self.atomics
    }

    /// Whether the number is zero.
    pub fn is_zero(&self) -> (z: bool)
        ensures
            z == (self.atomics == 0),
    {
        self.atomics == 0
    }

    /// The sum, unless it leaves the range.
    pub fn checked_add(self, other: Decimal) -> (res: Option<Decimal>)
        ensures
            res == if self.atomics + other.atomics <= u128::MAX {
                Some(Decimal { atomics: (self.atomics + other.atomics) as u128 })
            } else {
                None
            },
    {
        match self.atomics.checked_add(other.atomics) {
            Some(atomics) => Some(Decimal { atomics }),
            None => None,
        }
    }

    /// The product rounded down to 18 places, unless it leaves the range.
    pub fn checked_mul(self, other: Decimal) -> (res: Option<Decimal>)
        ensures
            res == if product_atomics(self.atomics as nat, other.atomics as nat) <= u128::MAX {
                Some(
                    Decimal {
                        atomics: product_atomics(self.atomics as nat, other.atomics as nat) as u128,
                    },
                )
            } else {
                None
            },
    {
        match checked_mul_atomics(self.atomics, other.atomics) {
            Some(atomics) => Some(Decimal { atomics }),
            None => None,
        }
    }
}

} // verus!
