//! Binary floating-point numbers held by their IEEE-754 bit patterns, ordered
//! as the numbers they stand for.

use vstd::prelude::*;

verus! {

/// The sign bit of a binary32 number; also the bits of -0.
pub const F32_SIGN: u32 = 0x8000_0000;

/// The bits of the binary32 infinity.
pub const F32_INFINITY: u32 = 0x7F80_0000;

/// The bits of the binary32 number 0.
pub const F32_ZERO: u32 = 0;

/// The bits of the binary32 number 1.
pub const F32_ONE: u32 = 0x3F80_0000;

/// The bits of the binary32 number 2.
pub const F32_TWO: u32 = 0x4000_0000;

/// The bits of the binary32 number -2.
pub const F32_MINUS_TWO: u32 = 0xC000_0000;

/// The bits of the binary32 number 100.
pub const F32_HUNDRED: u32 = 0x42C8_0000;

/// The bits of the binary32 number -100.
pub const F32_MINUS_HUNDRED: u32 = 0xC2C8_0000;

/// The sign bit of a binary64 number; also the bits of -0.
pub const F64_SIGN: u64 = 0x8000_0000_0000_0000;

/// The bits of the binary64 infinity.
pub const F64_INFINITY: u64 = 0x7FF0_0000_0000_0000;

/// The bits of the binary64 number 0.
pub const F64_ZERO: u64 = 0;

/// The bits of the binary64 number 1.
pub const F64_ONE: u64 = 0x3FF0_0000_0000_0000;

/// The bits of the binary64 number 100.
pub const F64_HUNDRED: u64 = 0x4059_0000_0000_0000;

/// The bits of the binary64 number -100.
pub const F64_MINUS_HUNDRED: u64 = 0xC059_0000_0000_0000;

/// A binary32 number, held by its bits. The sign is the top bit; what is
/// left, read as an integer, grows with the magnitude, and past the pattern of
/// infinity it is no number.
#[derive(Clone, Copy, Debug, PartialEq, Eq, Structural)]
pub struct Float32 {
    pub bits: u32,
}

/// A binary64 number, held by its bits.
#[derive(Clone, Copy, Debug, PartialEq, Eq, Structural)]
pub struct Float64 {
    pub bits: u64,
}

impl Float32 {
    /// The bits without the sign.
    pub open spec fn magnitude(self) -> int {
        if self.bits >= F32_SIGN {
            self.bits - F32_SIGN
        } else {
            self.bits as int
        }
    }

    /// The bits stand for no number.
    pub open spec fn is_nan(self) -> bool {
        self.magnitude() > F32_INFINITY
    }

    /// An integer that orders the numbers as their values do: both zeros
    /// get 0, a negative number the negation of its magnitude.
    pub open spec fn rank(self) -> int {
        if self.bits >= F32_SIGN {
            -self.magnitude()
        } else {
            self.bits as int
        }
    }

    /// `self < other` as numbers; false where either is no number.
    pub open spec fn lt(self, other: Float32) -> bool {
        !self.is_nan() && !other.is_nan() && self.rank() < other.rank()
    }

    /// `self > other` as numbers; false where either is no number.
    pub open spec fn gt(self, other: Float32) -> bool {
        other.lt(self)
    }

    /// `self <= other` as numbers; false where either is no number.
    pub open spec fn le(self, other: Float32) -> bool {
        !self.is_nan() && !other.is_nan() && self.rank() <= other.rank()
    }

    /// `self` lies strictly below `low` or strictly above `high`.
    pub open spec fn outside(self, low: Float32, high: Float32) -> bool {
        self.lt(low) || self.gt(high)
    }

    /// The number with these bits.
    pub fn from_bits(bits: u32) -> (r: Float32)
        ensures
            r.bits == bits,
    {
        Float32 { bits }
    }

    /// The bits of the number.
    pub fn to_bits(&self) -> (r: u32)
        ensures
            r == self.bits,
    {
        self.bits
    }

    fn exec_rank(&self) -> (r: i64)
        ensures
            r == self.rank(),
    {
        if self.bits >= F32_SIGN {
            let m: u32 = self.bits - F32_SIGN;
            -(m as i64)
        } else {
            self.bits as i64
        }
    }

    /// Whether the bits stand for no number.
    pub fn not_a_number(&self) -> (r: bool)
        ensures
            r == self.is_nan(),
    {
        let m: u32 = if self.bits >= F32_SIGN {
            self.bits - F32_SIGN
        } else {
            self.bits
        };
        m > F32_INFINITY
    }

    /// Whether `self < other` as numbers.
    pub fn less_than(&self, other: &Float32) -> (r: bool)
        ensures
            r == self.lt(*other),
    {
        !self.not_a_number() && !other.not_a_number() && self.exec_rank() < other.exec_rank()
    }

    /// Whether `self <= other` as numbers.
    pub fn at_most(&self, other: &Float32) -> (r: bool)
        ensures
            r == self.le(*other),
    {
        !self.not_a_number() && !other.not_a_number() && self.exec_rank() <= other.exec_rank()
    }

    /// Whether `self > other` as numbers.
    pub fn greater_than(&self, other: &Float32) -> (r: bool)
        ensures
            r == self.gt(*other),
    {
        other.less_than(self)
    }

    /// Whether `self` lies strictly below `low` or strictly above `high`.
    pub fn is_outside(&self, low: &Float32, high: &Float32) -> (r: bool)
        ensures
            r == self.outside(*low, *high),
    {
        self.less_than(low) || self.greater_than(high)
    }
}

impl Float64 {
    /// The bits without the sign.
    pub open spec fn magnitude(self) -> int {
        if self.bits >= F64_SIGN {
            self.bits - F64_SIGN
        } else {
            self.bits as int
        }
    }

    /// The bits stand for no number.
    pub open spec fn is_nan(self) -> bool {
        self.magnitude() > F64_INFINITY
    }

    /// An integer that orders the numbers as their values do.
    pub open spec fn rank(self) -> int {
        if self.bits >= F64_SIGN {
            -self.magnitude()
        } else {
            self.bits as int
        }
    }

    /// `self < other` as numbers; false where either is no number.
    pub open spec fn lt(self, other: Float64) -> bool {
        !self.is_nan() && !other.is_nan() && self.rank() < other.rank()
    }

    /// `self <= other` as numbers; false where either is no number.
    pub open spec fn le(self, other: Float64) -> bool {
        !self.is_nan() && !other.is_nan() && self.rank() <= other.rank()
    }

    /// The number with these bits.
    pub fn from_bits(bits: u64) -> (r: Float64)
        ensures
            r.bits == bits,
    {
        Float64 { bits }
    }

    /// The bits of the number.
    pub fn to_bits(&self) -> (r: u64)
        ensures
            r == self.bits,
    {
        self.bits
    }

    fn exec_rank(&self) -> (r: i128)
        ensures
            r == self.rank(),
    {
        if self.bits >= F64_SIGN {
            let m: u64 = self.bits - F64_SIGN;
            -(m as i128)
        } else {
            self.bits as i128
        }
    }

    /// Whether the bits stand for no number.
    pub fn not_a_number(&self) -> (r: bool)
        ensures
            r == self.is_nan(),
    {
        let m: u64 = if self.bits >= F64_SIGN {
            self.bits - F64_SIGN
        } else {
            self.bits
        };
        m > F64_INFINITY
    }

    /// Whether `self < other` as numbers.
    pub fn less_than(&self, other: &Float64) -> (r: bool)
        ensures
            r == self.lt(*other),
    {
        !self.not_a_number() && !other.not_a_number() && self.exec_rank() < other.exec_rank()
    }

    /// Whether `self <= other` as numbers.
    pub fn at_most(&self, other: &Float64) -> (r: bool)
        ensures
            r == self.le(*other),
    {
        !self.not_a_number() && !other.not_a_number() && self.exec_rank() <= other.exec_rank()
    }
}

} // verus!
