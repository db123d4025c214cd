//! Single-precision numbers as 32-bit words, with the IEEE 754 reading of a
//! word as a mathematical model.

use vstd::arithmetic::div_mod::{
    lemma_basic_div, lemma_div_is_ordered_by_denominator, lemma_div_multiples_vanish_fancy,
    lemma_div_multiples_vanish_quotient,
};
use vstd::arithmetic::power2::{
    lemma2_to64, lemma_pow2_adds, lemma_pow2_pos, lemma_pow2_strictly_increases, lemma_pow2_unfold,
    pow2,
};
use vstd::prelude::*;

verus! {

/// The word of `0.0`.
pub const ZERO_BITS: u32 = 0x0000_0000;

/// The word of `0.5`.
pub const HALF_BITS: u32 = 0x3F00_0000;

/// The word of `1.0`.
pub const ONE_BITS: u32 = 0x3F80_0000;

/// The word of `2.0`.
pub const TWO_BITS: u32 = 0x4000_0000;

/// The word of `-1.0`.
pub const NEG_ONE_BITS: u32 = 0xBF80_0000;

/// The word of the single-precision number nearest to 2π.
pub const TAU_BITS: u32 = 0x40C9_0FDB;

/// The word of the single-precision number nearest to -π.
pub const NEG_PI_BITS: u32 = 0xC049_0FDB;

/// The word of positive infinity; every larger word with a clear sign bit is
/// a NaN.
pub const INFINITY_BITS: u32 = 0x7F80_0000;

/// The word of `-0.0`.
pub const NEG_ZERO_BITS: u32 = 0x8000_0000;

/// The word of negative infinity; every larger word is a NaN.
pub const NEG_INFINITY_BITS: u32 = 0xFF80_0000;

/// A single-precision IEEE 754 number, held as its 32-bit word.
#[derive(Clone, Copy, Debug, PartialEq, Eq, Structural)]
pub struct Scalar {
    pub bits: u32,
}

impl Scalar {
    /// The sign bit: 1 for negative numbers and negative zero.
    pub open spec fn sign(self) -> int {
        self.bits as int / 0x8000_0000
    }

    /// The biased exponent, 0 to 255.
    pub open spec fn exponent(self) -> int {
        (self.bits as int / 0x80_0000) % 0x100
    }

    /// The 23 fraction bits.
    pub open spec fn fraction(self) -> int {
        self.bits as int % 0x80_0000
    }

    pub open spec fn is_nan(self) -> bool {
        self.exponent() == 0xFF && self.fraction() != 0
    }

    pub open spec fn is_infinite(self) -> bool {
        self.exponent() == 0xFF && self.fraction() == 0
    }

    pub open spec fn is_finite(self) -> bool {
        self.exponent() < 0xFF
    }

    /// The absolute value of a finite number, counted in units of 2^-149
    /// (the smallest positive single-precision number), so that it is an
    /// integer: 1.0 has magnitude 2^149.
    pub open spec fn magnitude(self) -> nat
        recommends
            self.is_finite(),
    {
        if self.exponent() == 0 {
            self.fraction() as nat
        } else {
            ((0x80_0000 + self.fraction()) * pow2((self.exponent() - 1) as nat)) as nat
        }
    }

    /// `self >= 0.5` as IEEE 754 orders numbers: a NaN compares false with
    /// everything, and positive infinity is above every finite number.
    pub open spec fn at_least_half(self) -> bool {
        &&& !self.is_nan()
        &&& self.sign() == 0
        &&& (self.is_infinite() || self.magnitude() >= pow2(148))
    }

    /// A finite number above zero.
    pub open spec fn is_positive(self) -> bool {
        &&& self.is_finite()
        &&& self.sign() == 0
        &&& self.bits != ZERO_BITS
    }

    /// `self >= floor` as IEEE 754 orders numbers, for a `floor` that is
    /// finite and above zero: a NaN compares false with everything, nothing
    /// negative reaches the floor, and positive infinity is above every finite
    /// number.
    pub open spec fn at_least(self, floor: Scalar) -> bool
        recommends
            floor.is_positive(),
    {
        &&& !self.is_nan()
        &&& self.sign() == 0
        &&& (self.is_infinite() || self.magnitude() >= floor.magnitude())
    }

    /// `self < 0.0` as IEEE 754 orders numbers: a NaN compares false with
    /// everything, negative zero equals zero, and negative infinity is below
    /// every finite number.
    pub open spec fn below_zero(self) -> bool {
        &&& !self.is_nan()
        &&& self.sign() == 1
        &&& (self.is_infinite() || self.magnitude() > 0)
    }

    /// `self` is a number between 0.0 and 1.0, both included.
    pub open spec fn in_unit_interval(self) -> bool {
        &&& self.is_finite()
        &&& (self.sign() == 0 || self.magnitude() == 0)
        &&& self.magnitude() <= pow2(149)
    }

    pub open spec fn zero() -> Scalar {
        Scalar { bits: ZERO_BITS }
    }

    pub open spec fn one() -> Scalar {
        Scalar { bits: ONE_BITS }
    }

    pub fn from_bits(bits: u32) -> (s: Scalar)
        ensures
            s.bits == bits,
    {
        Scalar { bits }
    }

    pub fn to_bits(self) -> (bits: u32)
        ensures
            bits == self.bits,
    {
        self.bits
    }

    /// Whether the number is at least one half.
    pub fn is_at_least_half(self) -> (b: bool)
        ensures
            b == self.at_least_half(),
    {
        proof {
            self.lemma_half_threshold();
        }
        HALF_BITS <= self.bits && self.bits <= INFINITY_BITS
    }

    /// The constants are the words of the numbers that their names say: in
    /// units of 2^-149, one is 2^149, one half 2^148 and two 2^150.
    pub proof fn lemma_constants()
        ensures
            Scalar::zero().sign() == 0 && Scalar::zero().magnitude() == 0,
            Scalar::one().sign() == 0 && Scalar::one().magnitude() == pow2(149),
            (Scalar { bits: HALF_BITS }).sign() == 0 && (Scalar { bits: HALF_BITS }).magnitude() == pow2(148),
            (Scalar { bits: TWO_BITS }).sign() == 0 && (Scalar { bits: TWO_BITS }).magnitude() == pow2(150),
            (Scalar { bits: NEG_ONE_BITS }).sign() == 1 && (Scalar { bits: NEG_ONE_BITS }).magnitude() == pow2(
                149,
            ),
            (Scalar { bits: NEG_ZERO_BITS }).sign() == 1 && (Scalar { bits: NEG_ZERO_BITS }).magnitude() == 0,
            (Scalar { bits: INFINITY_BITS }).is_infinite() && (Scalar { bits: INFINITY_BITS }).sign() == 0,
            (Scalar { bits: NEG_INFINITY_BITS }).is_infinite() && (Scalar { bits: NEG_INFINITY_BITS }).sign()
                == 1,
            Scalar::zero().in_unit_interval(),
            Scalar::one().in_unit_interval(),
    {
        lemma2_to64();
        lemma_pow2_adds(23, 125);
        lemma_pow2_adds(23, 126);
        lemma_pow2_adds(23, 127);
        lemma_pow2_pos(149);
    }

    /// Among the finite numbers that are not negative, words are ordered as
    /// the numbers are.
    pub proof fn lemma_words_ordered(self, other: Scalar)
        requires
            self.sign() == 0,
            other.sign() == 0,
            self.is_finite(),
            other.is_finite(),
        ensures
            self.bits <= other.bits <==> self.magnitude() <= other.magnitude(),
    {
        let (e1, f1) = (self.exponent(), self.fraction());
        let (e2, f2) = (other.exponent(), other.fraction());
        assert(self.bits as int == e1 * 0x80_0000 + f1);
        assert(other.bits as int == e2 * 0x80_0000 + f2);
        lemma2_to64();
        if e1 == e2 {
            if e1 > 0 {
                let p = pow2((e1 - 1) as nat) as int;
                lemma_pow2_pos((e1 - 1) as nat);
                assert(f1 <= f2 <==> (0x80_0000 + f1) * p <= (0x80_0000 + f2) * p) by (nonlinear_arith)
                    requires
                        p > 0,
                ;
            }
        } else if e1 < e2 {
            Self::lemma_exponent_dominates(e1, f1, e2, f2);
        } else {
            Self::lemma_exponent_dominates(e2, f2, e1, f1);
        }
    }

    /// A number with a smaller exponent is smaller, whatever the fractions.
    proof fn lemma_exponent_dominates(e1: int, f1: int, e2: int, f2: int)
        requires
            0 <= e1 < e2,
            0 <= f1 < 0x80_0000,
            0 <= f2 < 0x80_0000,
        ensures
            (if e1 == 0 {
                f1
            } else {
                (0x80_0000 + f1) * pow2((e1 - 1) as nat)
            }) < (0x80_0000 + f2) * pow2((e2 - 1) as nat),
    {
        let q = pow2((e2 - 1) as nat) as int;
        lemma_pow2_pos((e2 - 1) as nat);
        if e1 == 0 {
            assert(f1 < (0x80_0000 + f2) * q) by (nonlinear_arith)
                requires
                    0 <= f1 < 0x80_0000,
                    0 <= f2,
                    q >= 1,
            ;
        } else {
            let p = pow2((e1 - 1) as nat) as int;
            lemma_pow2_pos((e1 - 1) as nat);
            lemma_pow2_unfold(e1 as nat);
            if e1 < e2 - 1 {
                lemma_pow2_strictly_increases(e1 as nat, (e2 - 1) as nat);
            }
            assert((0x80_0000 + f1) * p < (0x80_0000 + f2) * q) by (nonlinear_arith)
                requires
                    0 <= f1 < 0x80_0000,
                    0 <= f2,
                    p > 0,
                    2 * p <= q,
            ;
        }
    }

    /// Whether the number is at least `floor`, a finite number above zero.
    pub fn is_at_least(self, floor: Scalar) -> (b: bool)
        requires
            floor.is_positive(),
        ensures
            b == self.at_least(floor),
    {
        proof {
            if self.sign() == 0 && self.is_finite() {
                floor.lemma_words_ordered(self);
            }
            if self.sign() == 0 && !self.is_finite() {
                assert(self.bits as int == 0xFF * 0x80_0000 + self.fraction());
            }
            assert(floor.bits < INFINITY_BITS);
        }
        floor.bits <= self.bits && self.bits <= INFINITY_BITS
    }

    /// Whether the number is below zero.
    pub fn is_below_zero(self) -> (b: bool)
        ensures
            b == self.below_zero(),
    {
        proof {
            let e = self.exponent();
            let f = self.fraction();
            if self.sign() == 1 {
                assert(self.bits as int == 0x8000_0000 + e * 0x80_0000 + f);
                if 0 < e < 0xFF {
                    lemma_pow2_pos((e - 1) as nat);
                    assert((0x80_0000 + f) * pow2((e - 1) as nat) > 0) by (nonlinear_arith)
                        requires
                            f >= 0,
                            pow2((e - 1) as nat) > 0,
                    ;
                }
            }
        }
        NEG_ZERO_BITS < self.bits && self.bits <= NEG_INFINITY_BITS
    }

    /// On words, "at least one half" is the range from the word of 0.5 to the
    /// word of positive infinity.
    pub proof fn lemma_half_threshold(self)
        ensures
            self.at_least_half() <==> (HALF_BITS <= self.bits <= INFINITY_BITS),
    {
        let e = self.exponent();
        let f = self.fraction();
        lemma2_to64();
        if self.sign() == 0 && e < 0xFF {
            assert(self.bits as int == e * 0x80_0000 + f);
            if e >= 126 {
                lemma_pow2_adds(23, 125);
                if e > 126 {
                    lemma_pow2_strictly_increases(125, (e - 1) as nat);
                }
                assert((0x80_0000 + f) * pow2((e - 1) as nat) >= pow2(148)) by (nonlinear_arith)
                    requires
                        f >= 0,
                        pow2((e - 1) as nat) >= pow2(125),
                        0x80_0000 * pow2(125) == pow2(148),
                ;
            } else if e >= 1 {
                lemma_pow2_adds(24, 124);
                lemma_pow2_pos((e - 1) as nat);
                if e < 125 {
                    lemma_pow2_strictly_increases((e - 1) as nat, 124);
                }
                assert((0x80_0000 + f) * pow2((e - 1) as nat) < pow2(148)) by (nonlinear_arith)
                    requires
                        0 <= f < 0x80_0000,
                        0 < pow2((e - 1) as nat) <= pow2(124),
                        0x100_0000 * pow2(124) == pow2(148),
                ;
            } else {
                lemma_pow2_strictly_increases(23, 148);
            }
        }
    }

    /// The whole number nearest to a finite number that is not negative,
    /// halves going up: the floor of the number plus one half.
    pub open spec fn nearest(self) -> nat
        recommends
            self.is_finite(),
            self.sign() == 0,
    {
        (self.magnitude() + pow2(148)) / pow2(149)
    }

    /// The number as a count: rounded to the nearest whole number, halves away
    /// from zero, then brought into the range of `usize`. A NaN and everything
    /// negative count as nothing; what is too large, positive infinity
    /// included, counts as `usize::MAX`.
    pub open spec fn count(self) -> nat {
        if self.is_nan() || self.sign() != 0 {
            0
        } else if self.is_infinite() || self.nearest() > usize::MAX {
            usize::MAX as nat
        } else {
            self.nearest()
        }
    }

    /// A finite number below one half is nearest to zero.
    proof fn lemma_nearest_below_half(self)
        requires
            self.sign() == 0,
            self.exponent() < 126,
        ensures
            self.nearest() == 0,
    {
        self.lemma_half_threshold();
        lemma2_to64();
        lemma_pow2_unfold(149);
        lemma_basic_div((self.magnitude() + pow2(148)) as int, pow2(149) as int);
    }

    /// A number from one half up to, but not including, one is nearest to one.
    proof fn lemma_nearest_below_one(self)
        requires
            self.sign() == 0,
            self.exponent() == 126,
        ensures
            self.nearest() == 1,
    {
        let f = self.fraction();
        lemma_pow2_unfold(149);
        lemma_pow2_adds(23, 125);
        lemma2_to64();
        let d = pow2(149) as int;
        lemma_pow2_pos(125);
        assert(pow2(148) <= (0x80_0000 + f) * pow2(125) < pow2(149)) by (nonlinear_arith)
            requires
                0 <= f < 0x80_0000,
                0 < pow2(125),
                0x80_0000 * pow2(125) == pow2(148),
                pow2(149) == 2 * pow2(148),
        ;
        let b = self.magnitude() + pow2(148) - d;
        lemma_div_multiples_vanish_fancy(1, b, d);
        assert(d * 1 + b == self.magnitude() + pow2(148));
    }

    /// From one up to 2^24 the nearest whole number is the 24-bit significand,
    /// cut `s` bits from the right and rounded on the highest bit cut.
    proof fn lemma_nearest_small(self, s: nat)
        requires
            self.sign() == 0,
            127 <= self.exponent() <= 150,
            s == 150 - self.exponent(),
        ensures
            s == 0 ==> self.nearest() == 0x80_0000 + self.fraction(),
            s > 0 ==> self.nearest() == (0x80_0000 + self.fraction() + pow2((s - 1) as nat)) / (pow2(s) as int),
    {
        let m = 0x80_0000 + self.fraction();
        let k = pow2((149 - s) as nat) as int;
        lemma_pow2_pos((149 - s) as nat);
        if s == 0 {
            lemma_pow2_strictly_increases(148, 149);
            lemma_div_multiples_vanish_fancy(m, pow2(148) as int, k);
            assert(k * m == m * k) by (nonlinear_arith);
        } else {
            let a = m + pow2((s - 1) as nat);
            let d = pow2(s) as int;
            lemma_pow2_pos(s);
            lemma_pow2_adds((s - 1) as nat, (149 - s) as nat);
            lemma_pow2_adds(s, (149 - s) as nat);
            lemma_div_multiples_vanish_quotient(k, a, d);
            assert(k * a == m * k + pow2((s - 1) as nat) * k) by (nonlinear_arith)
                requires
                    a == m + pow2((s - 1) as nat),
            ;
            assert(k * d == d * k) by (nonlinear_arith);
        }
    }

    /// From 2^24 on every number is whole: the significand times a power of
    /// two.
    proof fn lemma_nearest_large(self, t: nat)
        requires
            self.sign() == 0,
            151 <= self.exponent() < 255,
            t == self.exponent() - 150,
        ensures
            self.nearest() == (0x80_0000 + self.fraction()) * pow2(t),
    {
        let m = 0x80_0000 + self.fraction();
        let d = pow2(149) as int;
        lemma_pow2_adds(t, 149);
        lemma_pow2_strictly_increases(148, 149);
        assert(m * (pow2(t) * pow2(149)) == d * (m * pow2(t))) by (nonlinear_arith)
            requires
                d == pow2(149),
        ;
        lemma_div_multiples_vanish_fancy(m * pow2(t), pow2(148) as int, d);
    }

    /// Rounds to the nearest whole number, halves away from zero, and converts
    /// to a count, saturating at both ends.
    pub fn round_to_count(self) -> (n: usize)
        ensures
            n == self.count(),
    {
        let bits: u32 = self.bits;
        if bits >= 0x8000_0000 {
            return 0;
        }
        let e: u32 = bits / 0x80_0000;
        let f: u32 = bits % 0x80_0000;
        if e == 0xFF {
            return if f != 0 {
                0
            } else {
                usize::MAX
            };
        }
        if e < 126 {
            proof {
                self.lemma_nearest_below_half();
            }
            return 0;
        }
        if e == 126 {
            proof {
                self.lemma_nearest_below_one();
            }
            return 1;
        }
        let m: u64 = 0x80_0000 + f as u64;
        if e == 150 {
            proof {
                self.lemma_nearest_small(0);
            }
            m as usize
        } else if e < 150 {
            let s: u32 = 150 - e;
            let half: u64 = power_of_two(s - 1);
            let whole: u64 = power_of_two(s);
            proof {
                self.lemma_nearest_small(s as nat);
                lemma2_to64();
                lemma_pow2_strictly_increases((s - 1) as nat, 23);
                lemma_pow2_pos(s as nat);
                lemma_div_is_ordered_by_denominator((m + half) as int, 1, whole as int);
            }
            ((m + half) / whole) as usize
        } else {
            let t: u32 = e - 150;
            proof {
                self.lemma_nearest_large(t as nat);
                lemma2_to64();
            }
            if t >= 41 {
                proof {
                    lemma_pow2_adds(23, 41);
                    if t > 41 {
                        lemma_pow2_strictly_increases(41, t as nat);
                    }
                    assert((0x80_0000 + f) * pow2(t as nat) >= pow2(64)) by (nonlinear_arith)
                        requires
                            f >= 0,
                            pow2(t as nat) >= pow2(41),
                            0x80_0000 * pow2(41) == pow2(64),
                    ;
                }
                usize::MAX
            } else {
                let scale: u64 = power_of_two(t);
                proof {
                    lemma_pow2_adds(24, 40);
                    if t < 40 {
                        lemma_pow2_strictly_increases(t as nat, 40);
                    }
                    lemma_pow2_pos(40);
                    assert(m * scale < pow2(64)) by (nonlinear_arith)
                        requires
                            0 <= m < 0x100_0000,
                            0 <= scale <= pow2(40),
                            0 < pow2(40),
                            0x100_0000 * pow2(40) == pow2(64),
                    ;
                }
                let v: u64 = m * scale;
                if v > usize::MAX as u64 {
                    usize::MAX
                } else {
                    v as usize
                }
            }
        }
    }
}

/// Two to the power of `n`.
fn power_of_two(n: u32) -> (p: u64)
    requires
        n < 64,
    ensures
        p == pow2(n as nat),
{
    let mut p: u64 = 1;
    let mut i: u32 = 0;
    proof {
        lemma2_to64();
    }
    while i < n
        invariant
            i <= n < 64,
            p == pow2(i as nat),
        decreases n - i,
    {
        proof {
            lemma_pow2_unfold((i + 1) as nat);
            lemma_pow2_strictly_increases((i + 1) as nat, 64);
            lemma2_to64();
        }
        p = p * 2;
        i += 1;
    }
    p
}

} // verus!
