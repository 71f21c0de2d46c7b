//! Binary64 numbers, held as bit patterns and compared without arithmetic.

use vstd::arithmetic::power2::{
    lemma2_to64,
    lemma2_to64_rest,
    lemma_pow2_adds,
    lemma_pow2_pos,
    lemma_pow2_strictly_increases,
    lemma_pow2_unfold,
    pow2,
};
use vstd::prelude::*;

verus! {

/// The bit that carries the sign of a binary64 number.
pub const SIGN_BIT: u64 = 0x8000_0000_0000_0000;

/// The magnitude of the two infinities. Larger magnitudes are NaNs.
pub const INFINITY_BITS: u64 = 0x7ff0_0000_0000_0000;

/// The weight of the exponent field within a magnitude: `2^52`. Below it
/// stands the fraction.
pub const FRACTION_LIMIT: u64 = 0x0010_0000_0000_0000;

/// The bit pattern of `1.0`.
pub const ONE_BITS: u64 = 0x3ff0_0000_0000_0000;

/// An IEEE-754 binary64 number, held as its bit pattern.
///
/// Every pattern is a number, an infinity or a NaN, so the type has no
/// invariant. Patterns are built with `from_bits` from what `to_bits` of the
/// platform's floating-point type returns.
#[derive(Clone, Copy, Debug)]
pub struct Scalar {
    pub bits: u64,
}

impl Scalar {
    /// Whether the sign bit is set. True of `-0.0` and of half of the NaNs.
    pub open spec fn negative(self) -> bool {
        self.bits >= SIGN_BIT
    }

    /// The pattern without its sign bit.
    pub open spec fn magnitude(self) -> int {
        if self.bits >= SIGN_BIT {
            self.bits - SIGN_BIT
        } else {
            self.bits as int
        }
    }

    /// Whether the pattern is a NaN: it compares false with everything.
    pub open spec fn spec_is_nan(self) -> bool {
        self.magnitude() > INFINITY_BITS
    }

    /// The place of the number on the extended real line: its magnitude,
    /// counted downwards from zero where the sign bit is set.
    ///
    /// Both zeros have rank 0, and the infinities have the lowest and the
    /// highest rank of all that is not a NaN. That the rank orders the
    /// numbers as their values do is `lemma_rank_orders_values`.
    pub open spec fn rank(self) -> int {
        if self.negative() {
            -self.magnitude()
        } else {
            self.magnitude()
        }
    }

    /// How far a number lies from zero, counted in steps of `2^-1074`, the
    /// smallest positive number.
    ///
    /// Every number lies a whole count of steps away: the fraction itself
    /// where the exponent field is zero, and else the fraction with its
    /// hidden bit, doubled once for each exponent above one. An infinity
    /// counts as `2^1024`, beyond every number; the count of a NaN means
    /// nothing.
    pub open spec fn distance(self) -> nat {
        let exponent = self.magnitude() / (FRACTION_LIMIT as int);
        let fraction = self.magnitude() % (FRACTION_LIMIT as int);
        if exponent == 0 {
            fraction as nat
        } else {
            ((FRACTION_LIMIT + fraction) * pow2((exponent - 1) as nat)) as nat
        }
    }

    /// The value of a number, counted in steps of `2^-1074`: its distance
    /// from zero, with its sign.
    pub open spec fn value(self) -> int {
        if self.negative() {
            -(self.distance() as int)
        } else {
            self.distance() as int
        }
    }

    /// `self < rhs` as IEEE-754 defines it.
    pub open spec fn spec_lt(self, rhs: Scalar) -> bool {
        !self.spec_is_nan() && !rhs.spec_is_nan() && self.rank() < rhs.rank()
    }

    /// `self <= rhs` as IEEE-754 defines it.
    pub open spec fn spec_le(self, rhs: Scalar) -> bool {
        !self.spec_is_nan() && !rhs.spec_is_nan() && self.rank() <= rhs.rank()
    }

    /// `self > rhs` as IEEE-754 defines it.
    pub open spec fn spec_gt(self, rhs: Scalar) -> bool {
        rhs.spec_lt(self)
    }

    /// The number with the opposite sign; a NaN stays a NaN.
    pub open spec fn spec_neg(self) -> Scalar {
        Scalar {
            bits: if self.bits >= SIGN_BIT {
                (self.bits - SIGN_BIT) as u64
            } else {
                (self.bits + SIGN_BIT) as u64
            },
        }
    }

    /// The number without its sign; a NaN stays a NaN.
    pub open spec fn spec_abs(self) -> Scalar {
        Scalar { bits: self.magnitude() as u64 }
    }

    /// The number `0.0`.
    pub open spec fn spec_zero() -> Scalar {
        Scalar { bits: 0 }
    }

    /// The number `1.0`.
    pub open spec fn spec_one() -> Scalar {
        Scalar { bits: ONE_BITS }
    }

    /// Positive infinity.
    pub open spec fn spec_infinity() -> Scalar {
        Scalar { bits: INFINITY_BITS }
    }

    /// The number with the given bit pattern.
    pub fn from_bits(bits: u64) -> (s: Scalar)
        ensures
            s.bits == bits,
    {
        Scalar { bits }
    }

    /// The bit pattern of the number.
    pub fn to_bits(self) -> (bits: u64)
        ensures
            bits == self.bits,
    {
        self.bits
    }

    /// The number `0.0`.
    #[verifier::when_used_as_spec(spec_zero)]
    pub fn zero() -> (s: Scalar)
        ensures
            s == Scalar::spec_zero(),
    {
        Scalar { bits: 0 }
    }

    /// The number `1.0`.
    #[verifier::when_used_as_spec(spec_one)]
    pub fn one() -> (s: Scalar)
        ensures
            s == Scalar::spec_one(),
    {
        Scalar { bits: ONE_BITS }
    }

    /// Positive infinity.
    #[verifier::when_used_as_spec(spec_infinity)]
    pub fn infinity() -> (s: Scalar)
        ensures
            s == Scalar::spec_infinity(),
    {
        Scalar { bits: INFINITY_BITS }
    }

    fn magnitude_bits(self) -> (m: u64)
        ensures
            m == self.magnitude(),
    {
        if self.bits >= SIGN_BIT {
            self.bits - SIGN_BIT
        } else {
            self.bits
        }
    }

    /// Whether the number is a NaN.
    #[verifier::when_used_as_spec(spec_is_nan)]
    pub fn is_nan(self) -> (b: bool)
        ensures
            b == self.spec_is_nan(),
    {
        self.magnitude_bits() > INFINITY_BITS
    }

    /// The number with the opposite sign: the same distance from zero on the
    /// other side. A NaN stays a NaN.
    #[verifier::when_used_as_spec(spec_neg)]
    pub fn neg(self) -> (r: Scalar)
        ensures
            r == self.spec_neg(),
            r.magnitude() == self.magnitude(),
            r.negative() == !self.negative(),
            r.value() == -self.value(),
    {
        if self.bits >= SIGN_BIT {
            Scalar { bits: self.bits - SIGN_BIT }
        } else {
            Scalar { bits: self.bits + SIGN_BIT }
        }
    }

    /// The number without its sign: its distance from zero. A NaN stays a
    /// NaN.
    #[verifier::when_used_as_spec(spec_abs)]
    pub fn abs(self) -> (r: Scalar)
        ensures
            r == self.spec_abs(),
            r.magnitude() == self.magnitude(),
            !r.negative(),
            r.value() == self.distance(),
    {
        Scalar { bits: self.magnitude_bits() }
    }

    /// `self < rhs`: false where either is a NaN, and else whether the value
    /// of `self` is the smaller.
    #[verifier::when_used_as_spec(spec_lt)]
    pub fn lt(self, rhs: Scalar) -> (b: bool)
        ensures
            b == self.spec_lt(rhs),
            b == (!self.spec_is_nan() && !rhs.spec_is_nan() && self.value() < rhs.value()),
    {
        proof {
            Scalar::lemma_rank_orders_values(self, rhs);
        }
        if self.is_nan() || rhs.is_nan() {
            return false;
        }
        let a: u64 = self.magnitude_bits();
        let b: u64 = rhs.magnitude_bits();
        if self.bits >= SIGN_BIT {
            if rhs.bits >= SIGN_BIT {
                a > b
            } else {
                a > 0 || b > 0
            }
        } else {
            rhs.bits < SIGN_BIT && a < b
        }
    }

    /// `self <= rhs`: false where either is a NaN, and else whether the
    /// value of `self` is not the larger.
    #[verifier::when_used_as_spec(spec_le)]
    pub fn le(self, rhs: Scalar) -> (b: bool)
        ensures
            b == self.spec_le(rhs),
            b == (!self.spec_is_nan() && !rhs.spec_is_nan() && self.value() <= rhs.value()),
    {
        proof {
            Scalar::lemma_rank_orders_values(self, rhs);
        }
        !self.is_nan() && !rhs.is_nan() && !rhs.lt(self)
    }

    /// `self > rhs`: false where either is a NaN, and else whether the value
    /// of `self` is the larger.
    #[verifier::when_used_as_spec(spec_gt)]
    pub fn gt(self, rhs: Scalar) -> (b: bool)
        ensures
            b == self.spec_gt(rhs),
            b == (!self.spec_is_nan() && !rhs.spec_is_nan() && self.value() > rhs.value()),
    {
        rhs.lt(self)
    }

    /// A larger magnitude lies farther from zero.
    pub proof fn lemma_distance_increases(a: Scalar, b: Scalar)
        requires
            a.magnitude() < b.magnitude(),
        ensures
            a.distance() < b.distance(),
    {
        let limit = FRACTION_LIMIT as int;
        let ea = a.magnitude() / limit;
        let fa = a.magnitude() % limit;
        let eb = b.magnitude() / limit;
        let fb = b.magnitude() % limit;
        assert(ea <= eb && (ea == eb ==> fa < fb)) by {
            assert(a.magnitude() == limit * ea + fa);
            assert(b.magnitude() == limit * eb + fb);
            if ea > eb {
                assert(limit * ea >= limit * (eb + 1)) by (nonlinear_arith)
                    requires
                        ea >= eb + 1,
                        limit > 0,
                ;
            }
        }
        if ea == eb {
            if ea > 0 {
                let p = pow2((ea - 1) as nat);
                lemma_pow2_pos((ea - 1) as nat);
                assert((limit + fa) * p < (limit + fb) * p) by (nonlinear_arith)
                    requires
                        fa < fb,
                        p > 0,
                ;
            }
        } else {
            // a lies below 2^52 * 2^ea, and b does not
            let pa = pow2(ea as nat);
            let pb = pow2((eb - 1) as nat);
            lemma_pow2_pos(ea as nat);
            assert(a.distance() < limit * pa) by {
                if ea == 0 {
                    lemma2_to64();
                } else {
                    let half = pow2((ea - 1) as nat);
                    lemma_pow2_unfold(ea as nat);
                    lemma_pow2_pos((ea - 1) as nat);
                    assert((limit + fa) * half < limit * (2 * half)) by (nonlinear_arith)
                        requires
                            0 <= fa < limit,
                            half > 0,
                    ;
                }
            }
            assert(pa <= pb) by {
                if ea < eb - 1 {
                    lemma_pow2_strictly_increases(ea as nat, (eb - 1) as nat);
                }
            }
            assert(limit * pa <= (limit + fb) * pb) by (nonlinear_arith)
                requires
                    0 <= fb,
                    limit > 0,
                    0 < pa <= pb,
            ;
        }
    }

    /// The rank orders the numbers as their values do: of two numbers, the
    /// one of lower rank is the smaller, and numbers of equal rank are equal.
    pub proof fn lemma_rank_orders_values(a: Scalar, b: Scalar)
        ensures
            a.rank() < b.rank() <==> a.value() < b.value(),
            a.rank() == b.rank() <==> a.value() == b.value(),
    {
        let zero = Scalar { bits: 0 };
        assert(zero.distance() == 0);
        if a.magnitude() < b.magnitude() {
            Scalar::lemma_distance_increases(a, b);
        }
        if b.magnitude() < a.magnitude() {
            Scalar::lemma_distance_increases(b, a);
        }
        if 0 < a.magnitude() {
            Scalar::lemma_distance_increases(zero, a);
        }
        if 0 < b.magnitude() {
            Scalar::lemma_distance_increases(zero, b);
        }
    }

    /// The constants are the numbers they are named after: zero lies no step
    /// from zero, and one lies `2^1074` steps of `2^-1074` above it.
    pub proof fn lemma_constants_denote()
        ensures
            Scalar::spec_zero().value() == 0,
            Scalar::spec_one().value() == pow2(1074),
            !Scalar::spec_zero().spec_is_nan(),
            !Scalar::spec_one().spec_is_nan(),
            !Scalar::spec_infinity().spec_is_nan(),
    {
        let one = Scalar::spec_one();
        assert(one.magnitude() / (FRACTION_LIMIT as int) == 1023);
        assert(one.magnitude() % (FRACTION_LIMIT as int) == 0);
        lemma2_to64_rest();
        lemma_pow2_adds(52, 1022);
    }
}

} // verus!
