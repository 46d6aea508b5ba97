//! Analog numbers, carried by their bit pattern.
//!
//! A controller backend reports analog positions as binary32 numbers. The
//! library never computes with them: it compares a reading with a threshold,
//! and it writes a few whole numbers down. Both are done on the 32-bit
//! pattern, and the contracts say what the pattern means as a number.
//!
//! The number a finite pattern stands for is counted in *units* of
//! 2<sup>-149</sup>, the smallest positive binary32 number, so that every
//! finite reading is a whole number of units.

use vstd::prelude::*;
use vstd::arithmetic::power2::{
    lemma2_to64, lemma_pow2_adds, lemma_pow2_pos, lemma_pow2_strictly_increases,
    lemma_pow2_unfold, pow2,
};

verus! {

/// Bit pattern of the number one.
pub const ONE_BITS: u32 = 0x3F80_0000;

/// Bit pattern of the number zero.
pub const ZERO_BITS: u32 = 0;

/// Bit pattern of the number minus one.
pub const MINUS_ONE_BITS: u32 = 0xBF80_0000;

/// Bit pattern of the number one hundred.
pub const HUNDRED_BITS: u32 = 0x42C8_0000;

/// Bit pattern of one half, the threshold of the positive direction.
pub const HALF_BITS: u32 = 0x3F00_0000;

/// Bit pattern of minus one half, the threshold of the negative direction.
pub const MINUS_HALF_BITS: u32 = 0xBF00_0000;

/// Bit pattern of positive infinity.
pub const INFINITY_BITS: u32 = 0x7F80_0000;

/// Bit pattern of negative infinity.
pub const MINUS_INFINITY_BITS: u32 = 0xFF80_0000;

/// An analog number in binary32 form: one sign bit, eight exponent bits,
/// twenty-three fraction bits.
#[derive(Clone, Copy, Debug, PartialEq, Eq, Structural)]
pub struct Reading {
    pub bits: u32,
}

/// Where a reading lies relative to the two direction thresholds.
#[derive(Clone, Copy, Debug, PartialEq, Eq, Structural)]
pub enum Band {
    /// Below minus one half.
    Negative,
    /// Between the thresholds, both included; also any pattern that is no
    /// number.
    Neutral,
    /// Above one half.
    Positive,
}

/// How many units make the number one: 2<sup>149</sup>.
pub open spec fn one_in_units() -> nat {
    pow2(149)
}

/// How many units make one half: 2<sup>148</sup>.
pub open spec fn half_in_units() -> nat {
    pow2(148)
}

/// The reading that stands for the whole number `n`. No number has two such
/// readings ([`lemma_whole`]); every number from 0 to 255 has one
/// ([`Reading::from_level`]), and so has -1 ([`lemma_named_patterns`]).
pub open spec fn whole(n: int) -> Reading {
    choose|r: Reading| r.stands_for(n)
}

impl Reading {
    /// The sign bit is set.
    pub open spec fn sign_negative(self) -> bool {
        self.bits >= 0x8000_0000
    }

    /// The pattern without its sign bit.
    pub open spec fn magnitude_bits(self) -> nat {
        (self.bits % 0x8000_0000) as nat
    }

    /// The biased exponent field, from 0 to 255.
    pub open spec fn exponent_field(self) -> nat {
        self.magnitude_bits() / 0x80_0000
    }

    /// The fraction field, below 2<sup>23</sup>.
    pub open spec fn fraction_field(self) -> nat {
        self.magnitude_bits() % 0x80_0000
    }

    /// The pattern stands for no number.
    pub open spec fn is_nan(self) -> bool {
        self.exponent_field() == 255 && self.fraction_field() != 0
    }

    /// The pattern stands for positive or negative infinity.
    pub open spec fn is_infinite(self) -> bool {
        self.exponent_field() == 255 && self.fraction_field() == 0
    }

    /// The pattern stands for a number that is not infinite.
    pub open spec fn is_finite(self) -> bool {
        self.exponent_field() < 255
    }

    /// The absolute value of a finite reading, in units.
    pub open spec fn magnitude(self) -> nat
        recommends
            self.is_finite(),
    {
        if self.exponent_field() == 0 {
            self.fraction_field()
        } else {
            (0x80_0000 + self.fraction_field()) * pow2((self.exponent_field() - 1) as nat)
        }
    }

    /// The value of a finite reading, in units.
    pub open spec fn units(self) -> int
        recommends
            self.is_finite(),
    {
        if self.sign_negative() {
            -(self.magnitude() as int)
        } else {
            self.magnitude() as int
        }
    }

    /// The reading stands for the whole number `n`, and is not a zero with
    /// the sign bit set.
    pub open spec fn stands_for(self, n: int) -> bool {
        &&& self.is_finite()
        &&& self.units() == n * one_in_units()
        &&& (self.sign_negative() <==> n < 0)
    }

    /// The reading is a number greater than one half.
    pub open spec fn above_half(self) -> bool {
        &&& !self.is_nan()
        &&& !self.sign_negative()
        &&& (self.is_infinite() || self.magnitude() > half_in_units())
    }

    /// The reading is a number less than minus one half.
    pub open spec fn below_minus_half(self) -> bool {
        &&& !self.is_nan()
        &&& self.sign_negative()
        &&& (self.is_infinite() || self.magnitude() > half_in_units())
    }

    /// The band in which the reading lies.
    pub open spec fn band(self) -> Band {
        if self.above_half() {
            Band::Positive
        } else if self.below_minus_half() {
            Band::Negative
        } else {
            Band::Neutral
        }
    }

    /// The reading with the given bit pattern.
    pub fn from_bits(bits: u32) -> (r: Reading)
        ensures
            r.bits == bits,
    {
        Reading { bits }
    }

    /// The reading that stands for a whole number from 0 to 255.
    ///
    /// The number is written in binary32 form exactly: its leading binary
    /// digit fixes the exponent, the digits after it fill the fraction from
    /// the top.
    pub fn from_level(level: u8) -> (r: Reading)
        ensures
            r.stands_for(level as int),
            r == whole(level as int),
    {
        if level == 0 {
            proof {
                lemma_named_patterns();
                lemma_whole(Reading { bits: ZERO_BITS }, 0);
            }
            return Reading { bits: ZERO_BITS };
        }
        let level: u32 = level as u32;
        // `lead` is a power of two not above `level`; `step` is what one
        // unit of `level` below `lead` weighs in the fraction field.
        let mut lead: u32 = 1;
        let mut step: u32 = 0x80_0000;
        let mut exponent: u32 = 127;
        let ghost mut k: nat = 0;
        proof {
            lemma2_to64();
        }
        while lead <= level / 2
            invariant
                0 < level < 256,
                k <= 7,
                lead == pow2(k),
                step == pow2((23 - k) as nat),
                exponent == 127 + k,
                lead <= level,
            decreases 256 - lead,
        {
            proof {
                lemma2_to64();
                if k >= 7 {
                    assert(pow2(k) >= 128);
                }
                lemma_pow2_unfold(k + 1);
                lemma_pow2_unfold((23 - k) as nat);
                k = k + 1;
            }
            lead = lead * 2;
            step = step / 2;
            exponent = exponent + 1;
        }
        let rest: u32 = level - lead;
        proof {
            lemma_pow2_adds(k, (23 - k) as nat);
            lemma2_to64();
            assert(lead * step == 0x80_0000);
            assert(rest * step < lead * step) by (nonlinear_arith)
                requires
                    rest < lead,
                    step > 0,
            ;
            assert(exponent * 0x80_0000 <= 134 * 0x80_0000);
        }
        let fraction: u32 = rest * step;
        let r = Reading { bits: exponent * 0x80_0000 + fraction };
        proof {
            assert(r.exponent_field() == exponent);
            assert(r.fraction_field() == fraction);
            let p = pow2((exponent - 1) as nat);
            lemma_pow2_adds((23 - k) as nat, (126 + k) as nat);
            assert(step * p == one_in_units());
            assert((0x80_0000 + fraction) * p == level * (step * p)) by (nonlinear_arith)
                requires
                    fraction == rest * step,
                    lead * step == 0x80_0000,
                    rest == level - lead,
            ;
            lemma_pow2_pos(149);
            lemma_whole(r, level as int);
        }
        r
    }

    /// Tells in which band the reading lies. The comparisons are strict: a
    /// reading of exactly one half, or of exactly minus one half, is neutral.
    pub fn classify(self) -> (b: Band)
        ensures
            b == self.band(),
    {
        proof {
            lemma_thresholds(self);
        }
        if HALF_BITS < self.bits && self.bits <= INFINITY_BITS {
            Band::Positive
        } else if MINUS_HALF_BITS < self.bits && self.bits <= MINUS_INFINITY_BITS {
            Band::Negative
        } else {
            Band::Neutral
        }
    }
}

/// Among finite readings the magnitude grows with the pattern: of two finite
/// readings the one with the smaller pattern, sign bit left out, is the one
/// nearer to zero.
pub proof fn lemma_magnitude_increases(a: Reading, b: Reading)
    requires
        a.is_finite(),
        b.is_finite(),
        a.magnitude_bits() < b.magnitude_bits(),
    ensures
        a.magnitude() < b.magnitude(),
{
    let ea = a.exponent_field();
    let eb = b.exponent_field();
    let fa = a.fraction_field();
    let fb = b.fraction_field();
    assert(ea <= eb);
    if ea == eb {
        assert(fa < fb);
        if ea != 0 {
            let p = pow2((ea - 1) as nat);
            lemma_pow2_pos((ea - 1) as nat);
            assert((0x80_0000 + fa) * p < (0x80_0000 + fb) * p) by (nonlinear_arith)
                requires
                    fa < fb,
                    p > 0,
            ;
        }
    } else {
        let q = pow2((eb - 1) as nat);
        lemma_pow2_pos((eb - 1) as nat);
        assert(0x80_0000 * q <= (0x80_0000 + fb) * q) by (nonlinear_arith)
            requires
                fb >= 0,
                q > 0,
        ;
        if ea == 0 {
            assert(0x80_0000 <= 0x80_0000 * q) by (nonlinear_arith)
                requires
                    q >= 1,
            ;
        } else {
            let p = pow2((ea - 1) as nat);
            lemma_pow2_pos((ea - 1) as nat);
            assert((0x80_0000 + fa) * p < 0x80_0000 * (2 * p)) by (nonlinear_arith)
                requires
                    fa < 0x80_0000,
                    p > 0,
            ;
            lemma_pow2_unfold(ea);
            assert(pow2(ea) == 2 * p);
            if ea < eb - 1 {
                lemma_pow2_strictly_increases(ea, (eb - 1) as nat);
            }
            assert(pow2(ea) <= q);
            assert(0x80_0000 * pow2(ea) <= 0x80_0000 * q) by (nonlinear_arith)
                requires
                    pow2(ea) <= q,
            ;
        }
    }
}

/// Two finite readings of the same sign and the same magnitude are one reading.
pub proof fn lemma_number_determines_pattern(a: Reading, b: Reading)
    requires
        a.is_finite(),
        b.is_finite(),
        a.sign_negative() == b.sign_negative(),
        a.magnitude() == b.magnitude(),
    ensures
        a == b,
{
    if a.magnitude_bits() < b.magnitude_bits() {
        lemma_magnitude_increases(a, b);
    }
    if b.magnitude_bits() < a.magnitude_bits() {
        lemma_magnitude_increases(b, a);
    }
    assert(a.bits == b.bits);
}

/// A reading that stands for a whole number is the only one that does.
pub proof fn lemma_whole(r: Reading, n: int)
    requires
        r.stands_for(n),
    ensures
        r == whole(n),
{
    let w = whole(n);
    assert(w.stands_for(n));
    lemma_pow2_pos(149);
    assert(r.magnitude() == w.magnitude()) by (nonlinear_arith)
        requires
            r.units() == n * one_in_units(),
            w.units() == n * one_in_units(),
            r.sign_negative() <==> n < 0,
            w.sign_negative() <==> n < 0,
            r.units() == (if r.sign_negative() {
                -(r.magnitude() as int)
            } else {
                r.magnitude() as int
            }),
            w.units() == (if w.sign_negative() {
                -(w.magnitude() as int)
            } else {
                w.magnitude() as int
            }),
    ;
    lemma_number_determines_pattern(r, w);
}

/// What the named patterns stand for.
pub proof fn lemma_named_patterns()
    ensures
        (Reading { bits: ZERO_BITS }).stands_for(0),
        (Reading { bits: ONE_BITS }).stands_for(1),
        (Reading { bits: MINUS_ONE_BITS }).stands_for(-1),
        (Reading { bits: HUNDRED_BITS }).stands_for(100),
        (Reading { bits: HALF_BITS }).is_finite(),
        (Reading { bits: HALF_BITS }).units() == half_in_units(),
        (Reading { bits: MINUS_HALF_BITS }).is_finite(),
        (Reading { bits: MINUS_HALF_BITS }).units() == -half_in_units(),
        (Reading { bits: INFINITY_BITS }).is_infinite(),
        !(Reading { bits: INFINITY_BITS }).sign_negative(),
        (Reading { bits: MINUS_INFINITY_BITS }).is_infinite(),
        (Reading { bits: MINUS_INFINITY_BITS }).sign_negative(),
        2 * half_in_units() == one_in_units(),
{
    lemma2_to64();
    lemma_pow2_adds(23, 126);
    lemma_pow2_adds(23, 125);
    lemma_pow2_unfold(149);
    let hundred = Reading { bits: HUNDRED_BITS };
    let p = pow2(132);
    lemma_pow2_adds(17, 132);
    assert(hundred.exponent_field() == 133 && hundred.fraction_field() == 0x48_0000);
    assert(0xC8_0000 * p == 100 * (0x2_0000 * p)) by (nonlinear_arith);
}

/// The patterns of the whole numbers that the library writes by name.
pub proof fn lemma_whole_patterns()
    ensures
        whole(0) == (Reading { bits: ZERO_BITS }),
        whole(1) == (Reading { bits: ONE_BITS }),
        whole(-1) == (Reading { bits: MINUS_ONE_BITS }),
        whole(100) == (Reading { bits: HUNDRED_BITS }),
{
    lemma_named_patterns();
    lemma_whole(Reading { bits: ZERO_BITS }, 0);
    lemma_whole(Reading { bits: ONE_BITS }, 1);
    lemma_whole(Reading { bits: MINUS_ONE_BITS }, -1);
    lemma_whole(Reading { bits: HUNDRED_BITS }, 100);
}

/// The two thresholds, read on the pattern: the readings above one half are
/// the patterns after that of one half up to positive infinity, and the
/// readings below minus one half are the patterns after that of minus one
/// half up to negative infinity.
pub proof fn lemma_thresholds(r: Reading)
    ensures
        r.above_half() <==> (HALF_BITS < r.bits && r.bits <= INFINITY_BITS),
        r.below_minus_half() <==> (MINUS_HALF_BITS < r.bits && r.bits <= MINUS_INFINITY_BITS),
{
    lemma_named_patterns();
    if r.is_finite() {
        let half = if r.sign_negative() {
            Reading { bits: MINUS_HALF_BITS }
        } else {
            Reading { bits: HALF_BITS }
        };
        assert(half.magnitude() == half_in_units());
        if r.magnitude_bits() < half.magnitude_bits() {
            lemma_magnitude_increases(r, half);
        } else if half.magnitude_bits() < r.magnitude_bits() {
            lemma_magnitude_increases(half, r);
        } else {
            assert(r.bits == half.bits);
        }
    }
}

} // verus!
