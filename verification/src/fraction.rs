//! A fixed-point 24.8 value for sub-sample-accurate playback positions.

use vstd::prelude::*;

verus! {

/// The Amiga reference clock rate, in Hz.
pub const AMIGA_CLOCK: u32 = 3_546_895;

/// Saturating 32-bit addition.
pub open spec fn spec_sat_add(a: u32, b: u32) -> u32 {
    if a + b <= u32::MAX {
        (a + b) as u32
    } else {
        u32::MAX
    }
}

/// Represents a fixed-point 24.8 bit value.
///
/// Useful for calculating sample indices.
#[derive(Debug, Copy, Clone, PartialEq, Eq, Structural)]
pub struct Fractional {
    /// The raw bits: 24 integer bits over 8 fractional bits.
    pub inner: u32,
}

impl Fractional {
    /// Create a new fractional value from an integer.
    pub fn new(value: u32) -> (r: Fractional)
        ensures
            r.inner == value << 8u32,
            value < 0x100_0000 ==> r.inner == 256 * value,
    {
        proof {
            assert(value < 0x100_0000 ==> (value << 8u32) == 256 * value) by (bit_vector);
        }
        Fractional { inner: value << 8u32 }
    }

    /// Create a new fractional value from the Amiga clock rate: how many
    /// Amiga clock ticks pass per device sample.
    pub fn new_from_sample_rate(sample_rate: u32) -> (r: Fractional)
        requires
            sample_rate >= 1,
        ensures
            r.inner == 908_005_120u32 / sample_rate,
    {
        Fractional { inner: (AMIGA_CLOCK * 256) / sample_rate }
    }

    /// Convert to a sample index, discarding the fractional bits.
    pub fn as_index(self) -> (r: usize)
        ensures
            r == self.inner / 256u32,
    {
        proof {
            let x = self.inner;
            assert(x >> 8u32 == x / 256) by (bit_vector);
        }
        (self.inner >> 8u32) as usize
    }

    /// Divide this fractional value by the given period.
    pub fn apply_period(self, period: u16) -> (r: Fractional)
        requires
            period >= 1,
        ensures
            r.inner == self.inner / (period as u32),
    {
        Fractional { inner: self.inner / (period as u32) }
    }

    /// The sum of two fixed-point values, saturating at the top of the
    /// 32-bit range.
    pub fn sat_plus(self, rhs: Fractional) -> (r: Fractional)
        ensures
            r.inner == spec_sat_add(self.inner, rhs.inner),
    {
        if self.inner <= u32::MAX - rhs.inner {
            Fractional { inner: self.inner + rhs.inner }
        } else {
            Fractional { inner: u32::MAX }
        }
    }
}

impl Default for Fractional {
    /// The zero position.
    fn default() -> (r: Fractional)
        ensures
            r.inner == 0,
    {
        Fractional { inner: 0 }
    }
}

} // verus!
