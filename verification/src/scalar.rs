use vstd::prelude::*;

verus! {

/// A simulation scalar, carried as the bit pattern of a 64-bit IEEE 754
/// value. The library never performs real arithmetic itself: every
/// arithmetic step goes through a [`ScalarArith`] implementation supplied
/// by the host, and every guarantee the library proves holds for any such
/// implementation. What the library *can* decide on its own — and proves
/// exactly — are the bit-level classifications below (finite, NaN,
/// strictly positive), which depend only on the pattern.
#[derive(Clone, Copy, PartialEq, Eq, Structural, Debug)]
pub struct Scalar {
    pub bits: u64,
}

/// The exponent field of `b` is not all ones: the value is neither an
/// infinity nor a NaN.
pub open spec fn finite_bits(b: u64) -> bool {
    (b >> 52) & 0x7ff != 0x7ff
}

/// The exponent field is all ones and the significand is non-zero.
pub open spec fn nan_bits(b: u64) -> bool {
    (b >> 52) & 0x7ff == 0x7ff && b & 0xf_ffff_ffff_ffff != 0
}

/// The pattern compares strictly greater than zero as a 64-bit value:
/// the sign bit is clear, the pattern is not one of the two zeros, and it
/// is not a NaN. Positive infinity does compare greater than zero.
pub open spec fn positive_bits(b: u64) -> bool {
    b >> 63 == 0 && b != 0 && !nan_bits(b)
}

impl Scalar {
    /// Whether the value is neither an infinity nor a NaN.
    pub fn is_finite(&self) -> (r: bool)
        ensures
            r == finite_bits(self.bits),
    {
        (self.bits >> 52) & 0x7ff != 0x7ff
    }

    /// Whether the value is a NaN.
    pub fn is_nan(&self) -> (r: bool)
        ensures
            r == nan_bits(self.bits),
    {
        (self.bits >> 52) & 0x7ff == 0x7ff && self.bits & 0xf_ffff_ffff_ffff != 0
    }

    /// Whether the value compares strictly greater than zero.
    pub fn is_positive(&self) -> (r: bool)
        ensures
            r == positive_bits(self.bits),
    {
        self.bits >> 63 == 0 && self.bits != 0 && !self.is_nan()
    }
}

/// The 64-bit machine arithmetic, supplied by the host (the application,
/// or a test harness). The trait carries no contracts: the library treats
/// every operation as opaque, so each of its proofs holds for any
/// implementation. Hosts are expected to implement the operations with the
/// hardware's 64-bit real arithmetic.
pub trait ScalarArith {
    /// The sum of `a` and `b`.
    fn add(&self, a: Scalar, b: Scalar) -> Scalar;

    /// The difference `a` minus `b`.
    fn sub(&self, a: Scalar, b: Scalar) -> Scalar;

    /// The product of `a` and `b`.
    fn mul(&self, a: Scalar, b: Scalar) -> Scalar;

    /// The quotient `a` over `b`.
    fn div(&self, a: Scalar, b: Scalar) -> Scalar;

    /// The negation of `a`.
    fn neg(&self, a: Scalar) -> Scalar;

    /// The square root of `a`.
    fn sqrt(&self, a: Scalar) -> Scalar;

    /// The sine of `a`, in radians.
    fn sin(&self, a: Scalar) -> Scalar;

    /// The cosine of `a`, in radians.
    fn cos(&self, a: Scalar) -> Scalar;

    /// The four-quadrant arctangent of `y / x`.
    fn atan2(&self, y: Scalar, x: Scalar) -> Scalar;

    /// The largest integral value at or below `a`.
    fn floor(&self, a: Scalar) -> Scalar;

    /// The integral value nearest to `a`, with halves rounded away from
    /// zero.
    fn round(&self, a: Scalar) -> Scalar;

    /// Whether `a` and `b` compare equal as values (not as patterns: the
    /// two zeros compare equal, a NaN compares equal to nothing).
    fn eq(&self, a: Scalar, b: Scalar) -> bool;

    /// Whether `a` compares strictly less than `b`.
    fn lt(&self, a: Scalar, b: Scalar) -> bool;

    /// The scalar holding the integer `n`.
    fn from_u32(&self, n: u32) -> Scalar;

    /// The value of `a` rounded toward zero, saturating at the bounds of
    /// the result type, with NaN taken to zero.
    fn to_u32(&self, a: Scalar) -> u32;

    /// The scalar holding the integer `n`, rounded to the nearest
    /// representable value where `n` is too large to hold exactly.
    fn from_usize(&self, n: usize) -> Scalar;
}

} // verus!
