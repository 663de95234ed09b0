//! Typed value units.
//!
//! The protocol distinguishes native stake units ([`Lamports`]) from
//! derivative receipt-token units ([`StLamports`]). Both are opaque 64-bit
//! amounts; all arithmetic is checked and fails rather than wrapping, and
//! the only way to move between the two kinds is an explicit conversion
//! through the current exchange rate (see `state::ExchangeRate`), never an
//! implicit cast.

use vstd::prelude::*;

use crate::error::LidoError;

verus! {

/// An amount of native stake units.
#[derive(Clone, Copy, Debug, PartialEq, Eq, Structural)]
pub struct Lamports(pub u64);

/// An amount of derivative receipt-token units.
#[derive(Clone, Copy, Debug, PartialEq, Eq, Structural)]
pub struct StLamports(pub u64);

/// The exact value of `value * numerator / denominator` rounded down,
/// as an unbounded integer. Meaningful only for `denominator > 0`.
pub open spec fn spec_mul_div_floor(value: u64, numerator: u64, denominator: u64) -> int {
    (value * numerator) / (denominator as int)
}

/// What `mul_div_floor` returns: the floored ratio product, or the exact
/// error that rules it out.
pub open spec fn spec_mul_div_result(value: u64, numerator: u64, denominator: u64) -> Result<
    u64,
    LidoError,
> {
    if denominator == 0 {
        Err(LidoError::InvalidUnitConversion)
    } else if spec_mul_div_floor(value, numerator, denominator) > u64::MAX {
        Err(LidoError::ArithmeticOverflow)
    } else {
        Ok(spec_mul_div_floor(value, numerator, denominator) as u64)
    }
}

/// Multiply `value` by the ratio `numerator / denominator`, rounding down.
///
/// Rounding down biases every conversion toward the pool, never toward the
/// requester, so repeated round trips cannot leak value out of the pool.
pub fn mul_div_floor(value: u64, numerator: u64, denominator: u64) -> (r: Result<u64, LidoError>)
    ensures
        r == spec_mul_div_result(value, numerator, denominator),
{
    if denominator == 0 {
        return Err(LidoError::InvalidUnitConversion);
    }
    proof {
        assert((value as u128) * (numerator as u128) <= u128::MAX) by (nonlinear_arith)
            requires
                value <= u64::MAX && numerator <= u64::MAX,
        {}
    }
    let product: u128 = (value as u128) * (numerator as u128);
    let quotient: u128 = product / (denominator as u128);
    proof {
        assert(quotient == spec_mul_div_floor(value, numerator, denominator));
    }
    if quotient > u64::MAX as u128 {
        Err(LidoError::ArithmeticOverflow)
    } else {
        Ok(quotient as u64)
    }
}

impl Lamports {
    /// Checked addition; fails with `ArithmeticOverflow` instead of wrapping.
    pub fn checked_add(self, other: Lamports) -> (r: Result<Lamports, LidoError>)
        ensures
            r == if self.0 + other.0 <= u64::MAX {
                Ok::<Lamports, LidoError>(Lamports((self.0 + other.0) as u64))
            } else {
                Err::<Lamports, LidoError>(LidoError::ArithmeticOverflow)
            },
    {
        if self.0 <= u64::MAX - other.0 {
            Ok(Lamports(self.0 + other.0))
        } else {
            Err(LidoError::ArithmeticOverflow)
        }
    }

    /// Checked subtraction; fails with `ArithmeticUnderflow` below zero.
    pub fn checked_sub(self, other: Lamports) -> (r: Result<Lamports, LidoError>)
        ensures
            r == if self.0 >= other.0 {
                Ok::<Lamports, LidoError>(Lamports((self.0 - other.0) as u64))
            } else {
                Err::<Lamports, LidoError>(LidoError::ArithmeticUnderflow)
            },
    {
        if self.0 >= other.0 {
            Ok(Lamports(self.0 - other.0))
        } else {
            Err(LidoError::ArithmeticUnderflow)
        }
    }

    /// Checked multiplication by an integer ratio, rounding down.
    pub fn checked_mul_ratio(self, numerator: u64, denominator: u64) -> (r: Result<
        Lamports,
        LidoError,
    >)
        ensures
            r == match spec_mul_div_result(self.0, numerator, denominator) {
                Ok(v) => Ok::<Lamports, LidoError>(Lamports(v)),
                Err(e) => Err::<Lamports, LidoError>(e),
            },
    {
        match mul_div_floor(self.0, numerator, denominator) {
            Ok(v) => Ok(Lamports(v)),
            Err(e) => Err(e),
        }
    }
}

impl StLamports {
    /// Checked addition; fails with `ArithmeticOverflow` instead of wrapping.
    pub fn checked_add(self, other: StLamports) -> (r: Result<StLamports, LidoError>)
        ensures
            r == if self.0 + other.0 <= u64::MAX {
                Ok::<StLamports, LidoError>(StLamports((self.0 + other.0) as u64))
            } else {
                Err::<StLamports, LidoError>(LidoError::ArithmeticOverflow)
            },
    {
        if self.0 <= u64::MAX - other.0 {
            Ok(StLamports(self.0 + other.0))
        } else {
            Err(LidoError::ArithmeticOverflow)
        }
    }

    /// Checked subtraction; fails with `ArithmeticUnderflow` below zero.
    pub fn checked_sub(self, other: StLamports) -> (r: Result<StLamports, LidoError>)
        ensures
            r == if self.0 >= other.0 {
                Ok::<StLamports, LidoError>(StLamports((self.0 - other.0) as u64))
            } else {
                Err::<StLamports, LidoError>(LidoError::ArithmeticUnderflow)
            },
    {
        if self.0 >= other.0 {
            Ok(StLamports(self.0 - other.0))
        } else {
            Err(LidoError::ArithmeticUnderflow)
        }
    }

    /// Checked multiplication by an integer ratio, rounding down.
    pub fn checked_mul_ratio(self, numerator: u64, denominator: u64) -> (r: Result<
        StLamports,
        LidoError,
    >)
        ensures
            r == match spec_mul_div_result(self.0, numerator, denominator) {
                Ok(v) => Ok::<StLamports, LidoError>(StLamports(v)),
                Err(e) => Err::<StLamports, LidoError>(e),
            },
    {
        match mul_div_floor(self.0, numerator, denominator) {
            Ok(v) => Ok(StLamports(v)),
            Err(e) => Err(e),
        }
    }
}

} // verus!
