//! Real numbers in IEEE 754 single precision, held by their bit patterns.
//!
//! The simulation's numeric quantities (masses, lengths, angles, angular
//! velocities, time steps, screen coordinates) are single-precision values.
//! This module carries such a value as the 32 bits that encode it and
//! decides, on those bits alone, what the rest of the crate needs to know
//! about it: whether it is finite, whether it is strictly positive, and which
//! of two non-negative values is the smaller.

use vstd::prelude::*;
use vstd::arithmetic::power2::pow2;
use vstd::arithmetic::power2::lemma_pow2_pos;
use vstd::arithmetic::power2::lemma_pow2_unfold;
use vstd::arithmetic::power2::lemma_pow2_strictly_increases;

verus! {

/// Number of distinct fraction fields: two to the power 23.
pub const FRACTION_SPAN: u32 = 0x0080_0000;

/// The exponent field that encodes infinities and NaNs.
pub const EXPONENT_SPECIAL: u32 = 0xFF;

/// Bit pattern whose only set bit is the sign bit.
pub const SIGN_BIT: u32 = 0x8000_0000;

/// Bit pattern of positive infinity: the least pattern with a clear sign
/// bit that is not finite.
pub const POSITIVE_INFINITY_BITS: u32 = 0x7F80_0000;

/// A single-precision value, held by its bit pattern.
///
/// Equality on `Scalar` is equality of bit patterns.
#[derive(Clone, Copy, Debug, PartialEq, Eq, Structural)]
pub struct Scalar {
    pub bits: u32,
}

impl Scalar {
    /// Whether the sign bit is set.
    pub open spec fn sign(self) -> bool {
        self.bits >= SIGN_BIT
    }

    /// The biased exponent field, bits 23 to 30.
    pub open spec fn exponent(self) -> nat {
        ((self.bits as nat) / (FRACTION_SPAN as nat)) % 0x100
    }

    /// The fraction field, bits 0 to 22.
    pub open spec fn fraction(self) -> nat {
        (self.bits as nat) % (FRACTION_SPAN as nat)
    }

    /// Whether the value is neither an infinity nor a NaN.
    pub open spec fn finite(self) -> bool {
        self.exponent() != EXPONENT_SPECIAL
    }

    /// The absolute value of a finite scalar, in units of two to the power
    /// -149 (the smallest positive single-precision value).
    ///
    /// A subnormal value (exponent field 0) is its fraction field in these
    /// units; a normal value with exponent field `e` is the fraction with
    /// its implicit leading one, scaled by two to the power `e - 1`.
    pub open spec fn magnitude(self) -> nat {
        if self.exponent() == 0 {
            self.fraction()
        } else {
            (FRACTION_SPAN + self.fraction()) as nat * pow2((self.exponent() - 1) as nat)
        }
    }

    /// Whether the value is finite and strictly greater than zero.
    pub open spec fn positive(self) -> bool {
        &&& !self.sign()
        &&& self.finite()
        &&& self.magnitude() > 0
    }

    /// The scalar with the given bit pattern.
    pub fn from_bits(bits: u32) -> (s: Scalar)
        ensures
            s.bits == bits,
    {
        Scalar { bits }
    }

    /// The bit pattern of the scalar.
    pub fn to_bits(self) -> (bits: u32)
        ensures
            bits == self.bits,
    {
        self.bits
    }

    /// Decides whether the value is neither an infinity nor a NaN.
    pub fn is_finite(self) -> (r: bool)
        ensures
            r == self.finite(),
    {
        let low: u32 = if self.bits >= SIGN_BIT {
            self.bits - SIGN_BIT
        } else {
            self.bits
        };
        low < POSITIVE_INFINITY_BITS
    }

    /// Decides whether the value is finite and strictly greater than zero.
    pub fn is_positive(self) -> (r: bool)
        ensures
            r == self.positive(),
    {
        proof {
            lemma_positive_by_bits(self);
        }
        0 < self.bits && self.bits < POSITIVE_INFINITY_BITS
    }

    /// Whether the value is finite and its sign bit is clear.
    pub open spec fn non_negative(self) -> bool {
        !self.sign() && self.finite()
    }

    /// The smaller of `self` and `limit` by bit pattern. On finite values
    /// with a clear sign bit this is the smaller by magnitude; see
    /// [`lemma_order_by_bits`].
    pub open spec fn capped(self, limit: Scalar) -> Scalar {
        if self.bits <= limit.bits {
            self
        } else {
            limit
        }
    }

    /// Limits `self` to at most `limit`.
    ///
    /// On two finite values with clear sign bits the result is the one of
    /// smaller magnitude, so it exceeds neither.
    pub fn cap_at(self, limit: Scalar) -> (r: Scalar)
        ensures
            r == self.capped(limit),
            self.non_negative() && limit.non_negative() ==> {
                &&& r.non_negative()
                &&& r.magnitude() <= self.magnitude()
                &&& r.magnitude() <= limit.magnitude()
                &&& r.magnitude() == self.magnitude() || r.magnitude() == limit.magnitude()
            },
    {
        proof {
            if self.non_negative() && limit.non_negative() {
                lemma_order_by_bits(self, limit);
            }
        }
        if self.bits <= limit.bits {
            self
        } else {
            limit
        }
    }
}

/// A scalar is finite and strictly positive exactly when its bit pattern
/// lies strictly between those of zero and of positive infinity.
pub proof fn lemma_positive_by_bits(s: Scalar)
    ensures
        s.positive() <==> 0 < s.bits < POSITIVE_INFINITY_BITS,
{
    if s.exponent() != 0 {
        let p = pow2((s.exponent() - 1) as nat);
        lemma_pow2_pos((s.exponent() - 1) as nat);
        assert((FRACTION_SPAN + s.fraction()) as nat * p > 0) by (nonlinear_arith)
            requires
                p > 0,
                (FRACTION_SPAN + s.fraction()) as nat > 0,
        ;
    }
}

/// Among finite values with a clear sign bit, a smaller bit pattern encodes a
/// smaller magnitude.
proof fn lemma_magnitude_increases(a: Scalar, b: Scalar)
    requires
        a.non_negative(),
        b.non_negative(),
        a.bits < b.bits,
    ensures
        a.magnitude() < b.magnitude(),
{
    let span = FRACTION_SPAN as nat;
    let (ea, fa) = (a.exponent(), a.fraction());
    let (eb, fb) = (b.exponent(), b.fraction());
    assert(a.bits == ea * span + fa);
    assert(b.bits == eb * span + fb);
    assert(ea <= eb);
    if ea == eb {
        if ea != 0 {
            let p = pow2((ea - 1) as nat);
            lemma_pow2_pos((ea - 1) as nat);
            assert((span + fa) * p < (span + fb) * p) by (nonlinear_arith)
                requires
                    p > 0,
                    fa < fb,
            ;
        }
    } else {
        let pb = pow2((eb - 1) as nat);
        lemma_pow2_pos((eb - 1) as nat);
        if ea == 0 {
            assert((span + fb) * pb >= span) by (nonlinear_arith)
                requires
                    pb >= 1,
            ;
        } else {
            let pa = pow2((ea - 1) as nat);
            lemma_pow2_pos((ea - 1) as nat);
            lemma_pow2_unfold(ea);
            assert(pow2(ea) <= pb) by {
                if ea < eb - 1 {
                    lemma_pow2_strictly_increases(ea, (eb - 1) as nat);
                }
            }
            assert((span + fa) * pa < (span + fb) * pb) by (nonlinear_arith)
                requires
                    fa < span,
                    pa > 0,
                    2 * pa <= pb,
            ;
        }
    }
}

/// The order of bit patterns is the order of magnitudes.
///
/// For two finite values with clear sign bits, comparing the bit patterns as
/// unsigned integers gives the same answer as comparing the magnitudes they
/// encode, and distinct patterns encode distinct magnitudes.
pub proof fn lemma_order_by_bits(a: Scalar, b: Scalar)
    requires
        a.non_negative(),
        b.non_negative(),
    ensures
        a.bits <= b.bits <==> a.magnitude() <= b.magnitude(),
        a.bits == b.bits <==> a.magnitude() == b.magnitude(),
{
    if a.bits < b.bits {
        lemma_magnitude_increases(a, b);
    } else if b.bits < a.bits {
        lemma_magnitude_increases(b, a);
    }
}

} // verus!
