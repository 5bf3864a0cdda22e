//! A temperature as the services give it, and its whole degrees.

use vstd::arithmetic::power2::{lemma2_to64, lemma_pow2_strictly_increases, pow2};
use vstd::bits::{lemma_u32_shl_is_mul, lemma_u32_shr_is_div};
use vstd::prelude::*;

verus! {

/// A temperature in degrees with a fraction: a binary32 number, held by its
/// bits. From the highest bit down these are a sign, an exponent of 8 bits
/// and a fraction of 23 bits. With an exponent `e` from 1 to 254 and a
/// fraction `f` the number is `(2^23 + f) * 2^(e - 150)`, negative where the
/// sign is set. With the exponent 0 it is `f * 2^-149`, which is less than 1.
/// With the exponent 255 it is infinite where the fraction is 0, and no number
/// otherwise.
#[derive(Clone, Copy, Debug, PartialEq, Eq, Structural)]
pub struct Temperature {
    pub bits: u32,
}

impl Temperature {
    /// The sign is set.
    pub open spec fn is_negative(self) -> bool {
        self.bits >= 0x8000_0000
    }

    /// The 8 bits below the sign.
    pub open spec fn exponent(self) -> int {
        (self.bits as int / 0x80_0000) % 0x100
    }

    /// The lowest 23 bits.
    pub open spec fn fraction(self) -> int {
        self.bits as int % 0x80_0000
    }

    /// The bits stand for no number.
    pub open spec fn is_nan(self) -> bool {
        self.exponent() == 255 && self.fraction() != 0
    }

    /// The whole part of the number's magnitude, where the number is finite.
    /// A magnitude below 1, which every exponent under 127 gives, has the
    /// whole part 0.
    pub open spec fn whole_magnitude(self) -> int {
        let significand = 0x80_0000 + self.fraction();
        if self.exponent() < 127 {
            0
        } else if self.exponent() >= 150 {
            significand * pow2((self.exponent() - 150) as nat)
        } else {
            significand / (pow2((150 - self.exponent()) as nat) as int)
        }
    }

    /// The whole degrees of the temperature: the fraction is cut off, toward
    /// zero and without rounding. A magnitude of 2^31 or more, which every
    /// exponent from 158 on gives, ends at the nearest whole number that 32
    /// bits hold. What is no number has 0 degrees.
    pub open spec fn whole_degrees(self) -> int {
        if self.is_nan() {
            0
        } else if self.exponent() >= 158 {
            if self.is_negative() {
                i32::MIN as int
            } else {
                i32::MAX as int
            }
        } else if self.is_negative() {
            -self.whole_magnitude()
        } else {
            self.whole_magnitude()
        }
    }

    /// The whole degrees are never more than 32 bits hold, and they have the
    /// number's sign or are 0.
    pub proof fn lemma_whole_degrees_fit(self)
        ensures
            i32::MIN <= self.whole_degrees() <= i32::MAX,
            self.is_negative() ==> self.whole_degrees() <= 0,
            !self.is_negative() ==> self.whole_degrees() >= 0,
            self.exponent() < 127 ==> self.whole_degrees() == 0,
    {
        let significand = 0x80_0000 + self.fraction();
        if 150 <= self.exponent() < 158 {
            let shift = (self.exponent() - 150) as nat;
            lemma2_to64();
            if shift < 7 {
                lemma_pow2_strictly_increases(shift, 7);
            }
            assert(0 <= significand * pow2(shift) < 0x8000_0000) by (nonlinear_arith)
                requires
                    0 <= significand < 0x100_0000,
                    pow2(shift) <= 0x80,
            ;
        } else if 127 <= self.exponent() < 150 {
            let shift = (150 - self.exponent()) as nat;
            vstd::arithmetic::power2::lemma_pow2_pos(shift);
            assert(0 <= significand / (pow2(shift) as int) <= significand) by (nonlinear_arith)
                requires
                    0 <= significand,
                    pow2(shift) > 0,
            ;
        }
    }

    /// The temperature that is held by these bits.
    pub fn from_bits(bits: u32) -> (temperature: Self)
        ensures
            temperature.bits == bits,
    {
        Temperature { bits }
    }

    /// The bits that hold the temperature.
    pub fn to_bits(&self) -> (bits: u32)
        ensures
            bits == self.bits,
    {
        self.bits
    }

    /// The temperature in whole degrees.
    pub fn truncate(&self) -> (whole: i32)
        ensures
            whole == self.whole_degrees(),
    {
        let negative = self.bits >= 0x8000_0000;
        let exponent: u32 = (self.bits / 0x80_0000) % 0x100;
        let fraction: u32 = self.bits % 0x80_0000;
        if exponent == 255 && fraction != 0 {
            return 0;
        }
        if exponent >= 158 {
            return if negative {
                i32::MIN
            } else {
                i32::MAX
            };
        }
        if exponent < 127 {
            return 0;
        }
        let significand: u32 = 0x80_0000 + fraction;
        let magnitude: u32 = if exponent >= 150 {
            let shift: u32 = exponent - 150;
            proof {
                lemma2_to64();
                if shift < 7 {
                    lemma_pow2_strictly_increases(shift as nat, 7);
                }
                assert(significand * pow2(shift as nat) < 0x8000_0000) by (nonlinear_arith)
                    requires
                        significand < 0x100_0000,
                        pow2(shift as nat) <= 0x80,
                ;
                lemma_u32_shl_is_mul(significand, shift);
            }
            significand << shift
        } else {
            let shift: u32 = 150 - exponent;
            proof {
                lemma_u32_shr_is_div(significand, shift);
                assert(significand >> shift <= significand) by (bit_vector);
            }
            significand >> shift
        };
        if negative {
            -(magnitude as i32)
        } else {
            magnitude as i32
        }
    }
}

} // verus!
