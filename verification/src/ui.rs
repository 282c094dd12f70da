//! The parameters that the overlay lets the user tune.

use crate::scalar::Scalar;
use vstd::prelude::*;

verus! {

/// Largest iteration count the overlay offers.
pub const MAX_ITERATIONS: i32 = 3000;

/// Pattern of 10, the bound of `value` on both sides and of `exponent` above.
pub const TEN: u32 = 0x4120_0000;

/// Pattern of 2, the value and the exponent a new overlay shows.
pub const TWO: u32 = 0x4000_0000;

/// The overlay's parameters.
#[derive(Clone, Copy, Debug, PartialEq, Eq, Structural)]
pub struct Interface {
    pub iterations: i32,
    pub value: Scalar,
    pub exponent: Scalar,
}

/// `v` brought into the overlay's range of iteration counts.
pub open spec fn clamped_iterations(v: i32) -> i32 {
    if v < 0 {
        0
    } else if v > 3000 {
        3000
    } else {
        v
    }
}

/// `v` brought into the range from -10 to 10; a NaN has no place in it.
pub open spec fn clamped_value(v: Scalar) -> Scalar
    recommends
        !v.nan(),
{
    if v.magnitude() <= 0x4120_0000 {
        v
    } else if v.sign() {
        Scalar { bits: 0xc120_0000 }
    } else {
        Scalar { bits: 0x4120_0000 }
    }
}

/// `v` brought into the range from 0 to 10; a NaN has no place in it.
pub open spec fn clamped_exponent(v: Scalar) -> Scalar
    recommends
        !v.nan(),
{
    if v.below_zero() {
        Scalar { bits: 0 }
    } else if v.magnitude() <= 0x4120_0000 {
        v
    } else {
        Scalar { bits: 0x4120_0000 }
    }
}

impl Interface {
    /// The parameters lie in the ranges that the overlay's controls allow:
    /// the iteration count from 0 to 3000, the value from -10 to 10, the
    /// exponent from 0 to 10.
    pub open spec fn wf(self) -> bool {
        &&& 0 <= self.iterations <= 3000
        &&& self.value.within(Scalar { bits: 0x4120_0000 })
        &&& self.exponent.within(Scalar { bits: 0x4120_0000 })
        &&& !self.exponent.below_zero()
    }

    /// The parameters of a new overlay: 500 iterations, value 2, exponent 2.
    pub open spec fn initial() -> Interface {
        Interface {
            iterations: 500,
            value: Scalar { bits: 0x4000_0000 },
            exponent: Scalar { bits: 0x4000_0000 },
        }
    }

    pub fn new() -> (r: Interface)
        ensures
            r == Interface::initial(),
            r.wf(),
    {
        Interface { iterations: 500, value: Scalar { bits: TWO }, exponent: Scalar { bits: TWO } }
    }

    /// Sets the iteration count, brought into range.
    pub fn set_iterations(&mut self, iterations: i32)
        ensures
            *final(self) == (Interface {
                iterations: clamped_iterations(iterations),
                ..*old(self)
            }),
            old(self).wf() ==> final(self).wf(),
    {
        self.iterations = if iterations < 0 {
            0
        } else if iterations > MAX_ITERATIONS {
            MAX_ITERATIONS
        } else {
            iterations
        };
    }

    /// Sets the value, brought into range. A NaN is not taken.
    pub fn set_value(&mut self, value: Scalar)
        ensures
            *final(self) == if value.nan() {
                *old(self)
            } else {
                Interface { value: clamped_value(value), ..*old(self) }
            },
            old(self).wf() ==> final(self).wf(),
    {
        if !value.is_nan() {
            self.value = if value.abs_bits() <= TEN {
                value
            } else if value.bits >= crate::scalar::SIGN_BIT {
                Scalar { bits: 0xc120_0000 }
            } else {
                Scalar { bits: TEN }
            };
        }
    }

    /// Sets the exponent, brought into range. A NaN is not taken.
    pub fn set_exponent(&mut self, exponent: Scalar)
        ensures
            *final(self) == if exponent.nan() {
                *old(self)
            } else {
                Interface { exponent: clamped_exponent(exponent), ..*old(self) }
            },
            old(self).wf() ==> final(self).wf(),
    {
        if !exponent.is_nan() {
            self.exponent = if exponent.is_negative() {
                Scalar { bits: 0 }
            } else if exponent.abs_bits() <= TEN {
                exponent
            } else {
                Scalar { bits: TEN }
            };
        }
    }
}

} // verus!
