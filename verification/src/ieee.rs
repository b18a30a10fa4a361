//! Binary floating-point numbers handled by their bit patterns.
//!
//! Time stamps, volumes and bar heights reach this crate as the bit patterns of
//! IEEE 754 numbers, the form in which the shared cells of the player store
//! them. Comparing such numbers, telling whether one is "not a number" and
//! cutting one down to a whole number are integer questions about the pattern;
//! nothing here rounds.
use vstd::arithmetic::div_mod::{
    lemma_div_denominator, lemma_div_multiples_vanish, lemma_fundamental_div_mod,
};
use vstd::arithmetic::mul::lemma_mul_is_commutative;
use vstd::arithmetic::power2::{
    lemma2_to64, lemma2_to64_rest, lemma_pow2_adds, lemma_pow2_pos, lemma_pow2_strictly_increases, lemma_pow2_unfold,
    pow2,
};
use vstd::bits::{lemma_u64_shl_is_mul, lemma_u64_shr_is_div};
use vstd::prelude::*;

verus! {

/// A double-precision number, given by its bit pattern.
#[derive(Clone, Copy, PartialEq, Eq, Structural, Debug)]
pub struct Double {
    pub bits: u64,
}

/// A single-precision number, given by its bit pattern.
#[derive(Clone, Copy, PartialEq, Eq, Structural, Debug)]
pub struct Single {
    pub bits: u32,
}

/// The pattern below the sign bit of a double-precision infinity; larger ones are "not a number".
pub const DOUBLE_INFINITY: u64 = 0x7ff0_0000_0000_0000;

/// The weight of the sign bit of a double-precision number.
pub const DOUBLE_SIGN: u64 = 0x8000_0000_0000_0000;

/// The number of fractions that share one exponent of a double-precision number.
pub const DOUBLE_FRACTIONS: u64 = 0x0010_0000_0000_0000;

/// The pattern below the sign bit of a single-precision infinity.
pub const SINGLE_INFINITY: u32 = 0x7f80_0000;

/// The weight of the sign bit of a single-precision number.
pub const SINGLE_SIGN: u32 = 0x8000_0000;

/// The number of fractions that share one exponent of a single-precision number.
pub const SINGLE_FRACTIONS: u32 = 0x0080_0000;

/// The size of the number whose pattern below the sign bit is `magnitude`, counted in steps of
/// the smallest positive number of the format. `fractions` is two to the number of fraction
/// bits.
pub open spec fn steps(fractions: nat, magnitude: nat) -> nat {
    let exponent = magnitude / fractions;
    let fraction = magnitude % fractions;
    if exponent == 0 {
        fraction
    } else {
        (fractions + fraction) * pow2((exponent - 1) as nat)
    }
}

/// Of two patterns without sign, the larger one stands for the larger number.
pub proof fn lemma_steps_increase(fractions: nat, a: nat, b: nat)
    requires
        fractions > 0,
        a < b,
    ensures
        steps(fractions, a) < steps(fractions, b),
{
    let ea = a / fractions;
    let eb = b / fractions;
    let fa = a % fractions;
    let fb = b % fractions;
    lemma_fundamental_div_mod(a as int, fractions as int);
    lemma_fundamental_div_mod(b as int, fractions as int);
    assert(ea <= eb) by (nonlinear_arith)
        requires
            a < b,
            fractions > 0,
            a == fractions * ea + fa,
            b == fractions * eb + fb,
            0 <= fa < fractions,
            0 <= fb < fractions,
    ;
    if ea == eb {
        assert(fa < fb);
        if ea != 0 {
            let p = pow2((ea - 1) as nat);
            lemma_pow2_pos((ea - 1) as nat);
            assert((fractions + fa) * p < (fractions + fb) * p) by (nonlinear_arith)
                requires
                    fa < fb,
                    p > 0,
            ;
        }
    } else {
        let q = pow2((eb - 1) as nat);
        lemma_pow2_pos((eb - 1) as nat);
        assert((fractions + fb) * q >= fractions * q) by (nonlinear_arith)
            requires
                fb >= 0,
                q > 0,
        ;
        if ea == 0 {
            assert(fractions * q >= fractions) by (nonlinear_arith)
                requires
                    q >= 1,
            ;
        } else {
            let p = pow2((ea - 1) as nat);
            lemma_pow2_pos((ea - 1) as nat);
            lemma_pow2_unfold(ea);
            if ea < eb - 1 {
                lemma_pow2_strictly_increases(ea, (eb - 1) as nat);
            }
            assert(2 * p <= q);
            assert((fractions + fa) * p < fractions * q) by (nonlinear_arith)
                requires
                    fa < fractions,
                    2 * p <= q,
                    p > 0,
            ;
        }
    }
}

impl Double {
    /// The pattern without its sign bit.
    pub open spec fn magnitude(self) -> nat {
        (self.bits % DOUBLE_SIGN) as nat
    }

    /// Whether the pattern is "not a number".
    pub open spec fn nan(self) -> bool {
        self.magnitude() > DOUBLE_INFINITY
    }

    /// The exact value of a number in steps of two to the power -1074, the smallest positive
    /// double-precision number. The infinities lie beyond every finite number.
    pub open spec fn value(self) -> int {
        if self.bits >= DOUBLE_SIGN {
            -steps(DOUBLE_FRACTIONS as nat, self.magnitude())
        } else {
            steps(DOUBLE_FRACTIONS as nat, self.magnitude()) as int
        }
    }

    /// Whether `self` is the larger of two numbers; never so of "not a number".
    pub open spec fn exceeds(self, other: Double) -> bool {
        !self.nan() && !other.nan() && self.value() > other.value()
    }

    /// The whole number that remains when the fraction is dropped, held between the bounds of
    /// the unsigned 64-bit range; 0 for "not a number".
    pub open spec fn whole_part(self) -> nat {
        if self.nan() || self.value() < 0 {
            0
        } else {
            let whole = self.value() / (pow2(1074) as int);
            if whole > u64::MAX {
                u64::MAX as nat
            } else {
                whole as nat
            }
        }
    }

    /// The smaller of two numbers, or the one that is a number.
    pub open spec fn smaller(self, other: Double) -> Double {
        if self.nan() || self.exceeds(other) {
            other
        } else {
            self
        }
    }

    /// Values compare as the patterns below the sign bit do, under the two signs.
    pub proof fn lemma_value_order(self, other: Double)
        ensures
            self.magnitude() == 0 <==> self.value() == 0,
            self.bits < DOUBLE_SIGN ==> self.value() >= 0,
            self.bits >= DOUBLE_SIGN ==> self.value() <= 0,
            self.bits < DOUBLE_SIGN && other.bits < DOUBLE_SIGN ==> (self.value() > other.value()
                <==> self.magnitude() > other.magnitude()),
            self.bits >= DOUBLE_SIGN && other.bits >= DOUBLE_SIGN ==> (self.value()
                > other.value() <==> self.magnitude() < other.magnitude()),
    {
        let unit = DOUBLE_FRACTIONS as nat;
        let a = self.magnitude();
        let b = other.magnitude();
        assert(steps(unit, 0) == 0);
        if a > 0 {
            lemma_steps_increase(unit, 0, a);
        }
        if a < b {
            lemma_steps_increase(unit, a, b);
        }
        if b < a {
            lemma_steps_increase(unit, b, a);
        }
    }

    /// Whether the pattern is "not a number".
    pub fn is_nan(self) -> (res: bool)
        ensures
            res == self.nan(),
    {
        self.bits % DOUBLE_SIGN > DOUBLE_INFINITY
    }

    /// Whether the number is below zero; minus zero is not.
    pub fn is_negative(self) -> (res: bool)
        ensures
            res == (!self.nan() && self.value() < 0),
    {
        proof {
            self.lemma_value_order(self);
        }
        !self.is_nan() && self.bits > DOUBLE_SIGN
    }

    /// Whether `self` is larger than `other`.
    pub fn is_greater(self, other: Double) -> (res: bool)
        ensures
            res == self.exceeds(other),
    {
        proof {
            self.lemma_value_order(other);
            other.lemma_value_order(self);
        }
        if self.is_nan() || other.is_nan() {
            false
        } else if self.bits < DOUBLE_SIGN {
            if other.bits < DOUBLE_SIGN {
                self.bits > other.bits
            } else {
                self.bits > 0 || other.bits > DOUBLE_SIGN
            }
        } else if other.bits < DOUBLE_SIGN {
            false
        } else {
            self.bits < other.bits
        }
    }

    /// The smaller of two numbers; where one is "not a number", the other.
    pub fn min(self, other: Double) -> (res: Double)
        ensures
            res == self.smaller(other),
    {
        if self.is_nan() || self.is_greater(other) {
            other
        } else {
            self
        }
    }

    /// The number without its fraction, as an unsigned integer: below zero and "not a number"
    /// give 0, what is too large gives the largest integer.
    pub fn truncate(self) -> (res: u64)
        ensures
            res == self.whole_part(),
    {
        if self.is_nan() || self.is_negative() {
            return 0;
        }
        let magnitude: u64 = self.bits % DOUBLE_SIGN;
        let exponent: u64 = magnitude / DOUBLE_FRACTIONS;
        let significand: u64 = DOUBLE_FRACTIONS + magnitude % DOUBLE_FRACTIONS;
        proof {
            self.lemma_value_order(self);
            lemma_pow2_pos(1074);
            if self.bits >= DOUBLE_SIGN {
                assert(self.value() == 0);
                assert(0int / (pow2(1074) as int) == 0) by (nonlinear_arith)
                    requires
                        pow2(1074) > 0,
                ;
            }
        }
        if exponent < 1023 {
            proof {
                self.lemma_below_one();
            }
            0
        } else if exponent >= 1087 {
            proof {
                self.lemma_beyond_range();
            }
            u64::MAX
        } else if exponent >= 1075 {
            let shift: u64 = exponent - 1075;
            proof {
                lemma_shifted_left(significand as nat, exponent as nat);
                lemma2_to64();
                let p = pow2(shift as nat);
                if shift < 11 {
                    lemma_pow2_strictly_increases(shift as nat, 11);
                }
                assert(significand * p <= u64::MAX) by (nonlinear_arith)
                    requires
                        0 < p <= 0x800,
                        significand < 0x20_0000_0000_0000,
                ;
                lemma_u64_shl_is_mul(significand, shift);
            }
            significand << shift
        } else {
            let shift: u64 = 1075 - exponent;
            proof {
                lemma_shifted_right(significand as nat, exponent as nat);
                lemma_u64_shr_is_div(significand, shift);
                let q = pow2(shift as nat);
                lemma_pow2_pos(shift as nat);
                assert(significand as int / q as int <= significand) by (nonlinear_arith)
                    requires
                        q > 0,
                        significand >= 0,
                ;
            }
            significand >> shift
        }
    }

    /// A number with a small exponent is below one.
    proof fn lemma_below_one(self)
        requires
            self.magnitude() / (DOUBLE_FRACTIONS as nat) < 1023,
        ensures
            self.bits < DOUBLE_SIGN ==> self.value() / (pow2(1074) as int) == 0,
    {
        let unit = DOUBLE_FRACTIONS as nat;
        let edge: nat = 1023 * unit;
        assert(self.magnitude() < edge);
        lemma_steps_increase(unit, self.magnitude(), edge);
        assert(edge / unit == 1023);
        assert(edge % unit == 0);
        lemma2_to64_rest();
        lemma_pow2_adds(52, 1022);
        assert(steps(unit, edge) == pow2(1074));
        let v = steps(unit, self.magnitude()) as int;
        assert(v / (pow2(1074) as int) == 0) by (nonlinear_arith)
            requires
                0 <= v < pow2(1074),
        ;
    }

    /// A number with a large exponent is beyond the unsigned 64-bit range.
    proof fn lemma_beyond_range(self)
        requires
            self.magnitude() / (DOUBLE_FRACTIONS as nat) >= 1087,
        ensures
            self.bits < DOUBLE_SIGN ==> self.value() / (pow2(1074) as int) > u64::MAX,
    {
        let unit = DOUBLE_FRACTIONS as nat;
        let edge: nat = 1087 * unit;
        assert(self.magnitude() >= edge);
        if self.magnitude() > edge {
            lemma_steps_increase(unit, edge, self.magnitude());
        }
        assert(edge / unit == 1087);
        assert(edge % unit == 0);
        lemma2_to64();
        lemma2_to64_rest();
        lemma_pow2_adds(52, 1086);
        lemma_pow2_adds(64, 1074);
        assert(steps(unit, edge) == pow2(64) * pow2(1074));
        let v = steps(unit, self.magnitude()) as int;
        let d = pow2(1074) as int;
        lemma_pow2_pos(1074);
        assert(v / d >= pow2(64)) by (nonlinear_arith)
            requires
                v >= pow2(64) * d,
                d > 0,
        ;
    }
}

/// With an exponent from 1075 on, the whole part is the significand shifted left.
proof fn lemma_shifted_left(significand: nat, exponent: nat)
    requires
        exponent >= 1075,
    ensures
        (significand * pow2((exponent - 1) as nat)) as int / (pow2(1074) as int) == significand
            * pow2((exponent - 1075) as nat),
{
    let low = pow2((exponent - 1075) as nat);
    let d = pow2(1074);
    lemma_pow2_adds((exponent - 1075) as nat, 1074);
    lemma_pow2_pos(1074);
    assert(significand * (low * d) == d * (significand * low)) by (nonlinear_arith);
    lemma_div_multiples_vanish((significand * low) as int, d as int);
}

/// With an exponent below 1075, the whole part is the significand shifted right.
proof fn lemma_shifted_right(significand: nat, exponent: nat)
    requires
        1 <= exponent < 1075,
    ensures
        (significand * pow2((exponent - 1) as nat)) as int / (pow2(1074) as int)
            == significand as int / (pow2((1075 - exponent) as nat) as int),
{
    let high = pow2((exponent - 1) as nat);
    let low = pow2((1075 - exponent) as nat);
    lemma_pow2_adds((exponent - 1) as nat, (1075 - exponent) as nat);
    lemma_pow2_pos((exponent - 1) as nat);
    lemma_pow2_pos((1075 - exponent) as nat);
    lemma_div_denominator((significand * high) as int, high as int, low as int);
    lemma_mul_is_commutative(significand as int, high as int);
    lemma_div_multiples_vanish(significand as int, high as int);
}

impl Single {
    /// The pattern without its sign bit.
    pub open spec fn magnitude(self) -> nat {
        (self.bits % SINGLE_SIGN) as nat
    }

    /// Whether the pattern is "not a number".
    pub open spec fn nan(self) -> bool {
        self.magnitude() > SINGLE_INFINITY
    }

    /// The exact value of a number in steps of two to the power -149, the smallest positive
    /// single-precision number. The infinities lie beyond every finite number.
    pub open spec fn value(self) -> int {
        if self.bits >= SINGLE_SIGN {
            -steps(SINGLE_FRACTIONS as nat, self.magnitude())
        } else {
            steps(SINGLE_FRACTIONS as nat, self.magnitude()) as int
        }
    }

    /// Whether `self` is the larger of two numbers; never so of "not a number".
    pub open spec fn exceeds(self, other: Single) -> bool {
        !self.nan() && !other.nan() && self.value() > other.value()
    }

    /// Whether `self` is a number from `low` to `high`.
    pub open spec fn within(self, low: Single, high: Single) -> bool {
        &&& !self.nan() && !low.nan() && !high.nan()
        &&& low.value() <= self.value() <= high.value()
    }

    /// Values compare as the patterns below the sign bit do, under the two signs.
    pub proof fn lemma_value_order(self, other: Single)
        ensures
            self.magnitude() == 0 <==> self.value() == 0,
            self.bits < SINGLE_SIGN ==> self.value() >= 0,
            self.bits >= SINGLE_SIGN ==> self.value() <= 0,
            self.bits < SINGLE_SIGN && other.bits < SINGLE_SIGN ==> (self.value() > other.value()
                <==> self.magnitude() > other.magnitude()),
            self.bits >= SINGLE_SIGN && other.bits >= SINGLE_SIGN ==> (self.value()
                > other.value() <==> self.magnitude() < other.magnitude()),
    {
        let unit = SINGLE_FRACTIONS as nat;
        let a = self.magnitude();
        let b = other.magnitude();
        assert(steps(unit, 0) == 0);
        if a > 0 {
            lemma_steps_increase(unit, 0, a);
        }
        if a < b {
            lemma_steps_increase(unit, a, b);
        }
        if b < a {
            lemma_steps_increase(unit, b, a);
        }
    }

    /// Whether the pattern is "not a number".
    pub fn is_nan(self) -> (res: bool)
        ensures
            res == self.nan(),
    {
        self.bits % SINGLE_SIGN > SINGLE_INFINITY
    }

    /// Whether `self` is a number from `low` to `high`.
    pub fn is_within(self, low: Single, high: Single) -> (res: bool)
        ensures
            res == self.within(low, high),
    {
        !self.is_nan() && !low.is_nan() && !high.is_nan() && !low.is_greater(self)
            && !self.is_greater(high)
    }

    /// Whether `self` is larger than `other`.
    pub fn is_greater(self, other: Single) -> (res: bool)
        ensures
            res == self.exceeds(other),
    {
        proof {
            self.lemma_value_order(other);
            other.lemma_value_order(self);
        }
        if self.is_nan() || other.is_nan() {
            false
        } else if self.bits < SINGLE_SIGN {
            if other.bits < SINGLE_SIGN {
                self.bits > other.bits
            } else {
                self.bits > 0 || other.bits > SINGLE_SIGN
            }
        } else if other.bits < SINGLE_SIGN {
            false
        } else {
            self.bits < other.bits
        }
    }
}

/// The numbers of a format follow each other evenly up to twice the number of fractions, and from
/// there on each pattern stands for twice the number that the pattern one exponent below it stands
/// for.
pub proof fn law_numbers_double_with_each_exponent(fractions: nat, magnitude: nat)
    requires
        fractions > 0,
    ensures
        magnitude < 2 * fractions ==> steps(fractions, magnitude) == magnitude,
        magnitude >= fractions ==> steps(fractions, magnitude + fractions) == 2 * steps(
            fractions,
            magnitude,
        ),
{
    let exponent = magnitude / fractions;
    let fraction = magnitude % fractions;
    lemma_fundamental_div_mod(magnitude as int, fractions as int);
    lemma2_to64();
    if magnitude < 2 * fractions {
        assert(exponent <= 1) by (nonlinear_arith)
            requires
                magnitude < 2 * fractions,
                magnitude == fractions * exponent + fraction,
                fraction >= 0,
                fractions > 0,
        ;
        assert(exponent == 1 ==> fractions * exponent == fractions) by (nonlinear_arith);
        assert(exponent == 0 ==> fractions * exponent == 0) by (nonlinear_arith);
        assert((fractions + fraction) * 1 == fractions + fraction);
    }
    if magnitude >= fractions {
        assert(exponent >= 1) by (nonlinear_arith)
            requires
                magnitude >= fractions,
                magnitude == fractions * exponent + fraction,
                fraction < fractions,
        ;
        let next = magnitude + fractions;
        lemma_fundamental_div_mod(next as int, fractions as int);
        let (e, f) = (next / fractions, next % fractions);
        assert(e == exponent + 1 && f == fraction) by (nonlinear_arith)
            requires
                next == fractions * e + f,
                next == fractions * exponent + fraction + fractions,
                0 <= f < fractions,
                0 <= fraction < fractions,
        ;
        lemma_pow2_unfold(exponent);
        let p = pow2((exponent - 1) as nat);
        assert((fractions + fraction) * (2 * p) == 2 * ((fractions + fraction) * p))
            by (nonlinear_arith);
    }
}

/// Double-precision numbers compare by their patterns: a larger pattern is a larger number among
/// those without a sign and a smaller one among those with it, what has no sign lies above what has
/// one but for the two zeros, and what is not a number compares with nothing.
pub proof fn law_doubles_compare_by_their_patterns(a: Double, b: Double)
    ensures
        ({
            let sign: u64 = 0x8000_0000_0000_0000;
            let infinity: u64 = 0x7ff0_0000_0000_0000;
            &&& a.nan() <==> a.bits % sign > infinity
            &&& a.nan() || b.nan() ==> !a.exceeds(b)
            &&& !a.nan() && !b.nan() && a.bits < sign && b.bits < sign ==> (a.exceeds(b) <==> a.bits
                > b.bits)
            &&& !a.nan() && !b.nan() && a.bits >= sign && b.bits >= sign ==> (a.exceeds(b)
                <==> a.bits < b.bits)
            &&& !a.nan() && !b.nan() && a.bits < sign && b.bits >= sign ==> (a.exceeds(b) <==> !(
            a.bits == 0 && b.bits == sign))
            &&& a.bits >= sign && b.bits < sign ==> !a.exceeds(b)
            &&& !a.nan() ==> (a.value() < 0 <==> a.bits > sign)
        }),
{
    a.lemma_value_order(b);
    b.lemma_value_order(a);
}

/// Single-precision numbers compare by their patterns in the same way.
pub proof fn law_singles_compare_by_their_patterns(a: Single, b: Single)
    ensures
        ({
            let sign: u32 = 0x8000_0000;
            let infinity: u32 = 0x7f80_0000;
            &&& a.nan() <==> a.bits % sign > infinity
            &&& a.nan() || b.nan() ==> !a.exceeds(b)
            &&& !a.nan() && !b.nan() && a.bits < sign && b.bits < sign ==> (a.exceeds(b) <==> a.bits
                > b.bits)
            &&& !a.nan() && !b.nan() && a.bits >= sign && b.bits >= sign ==> (a.exceeds(b)
                <==> a.bits < b.bits)
            &&& !a.nan() && !b.nan() && a.bits < sign && b.bits >= sign ==> (a.exceeds(b) <==> !(
            a.bits == 0 && b.bits == sign))
            &&& a.bits >= sign && b.bits < sign ==> !a.exceeds(b)
        }),
{
    a.lemma_value_order(b);
    b.lemma_value_order(a);
}

/// A number lies within bounds exactly if it is a number and neither bound is passed.
pub proof fn law_within_passes_no_bound(a: Single, low: Single, high: Single)
    requires
        !low.nan(),
        !high.nan(),
    ensures
        a.within(low, high) <==> !a.nan() && !low.exceeds(a) && !a.exceeds(high),
{
}

/// The whole part of a number that is not below zero is the largest whole number that is not above
/// it, or the largest of the range where that is passed; of anything else it is 0. One whole is two
/// to the power 1074 of the smallest steps.
pub proof fn law_whole_part_is_the_whole_below(a: Double)
    ensures
        ({
            let one = pow2(1074) as int;
            let whole = a.whole_part() as int;
            &&& (Double { bits: 0x3ff0_0000_0000_0000 }).value() == one
            &&& 0 <= whole <= 0xffff_ffff_ffff_ffff
            &&& a.nan() || a.value() < 0 ==> whole == 0
            &&& !a.nan() && a.value() >= 0 ==> whole * one <= a.value()
            &&& !a.nan() && a.value() >= 0 && whole < 0xffff_ffff_ffff_ffff ==> a.value() < (whole
                + 1) * one
        }),
{
    let unit = DOUBLE_FRACTIONS as nat;
    let edge: nat = 1023 * unit;
    assert(edge / unit == 1023);
    assert(edge % unit == 0);
    lemma2_to64_rest();
    lemma_pow2_adds(52, 1022);
    lemma_pow2_pos(1074);
    let one = pow2(1074) as int;
    assert((Double { bits: 0x3ff0_0000_0000_0000 }).magnitude() == edge);
    if !a.nan() && a.value() >= 0 {
        let exact = a.value() / one;
        lemma_fundamental_div_mod(a.value(), one);
        let left = a.value() % one;
        assert(exact >= 0) by (nonlinear_arith)
            requires
                a.value() == one * exact + left,
                0 <= left < one,
                a.value() >= 0,
        ;
        let whole = a.whole_part() as int;
        assert(whole <= exact);
        assert(whole * one <= a.value()) by (nonlinear_arith)
            requires
                whole <= exact,
                a.value() == one * exact + left,
                0 <= left,
                one > 0,
        ;
        assert((exact + 1) * one > a.value()) by (nonlinear_arith)
            requires
                a.value() == one * exact + left,
                left < one,
        ;
    }
}

/// The smaller of two is one of them, a number where either is one, and above neither.
pub proof fn law_smaller_is_above_neither(a: Double, b: Double)
    ensures
        a.smaller(b) == a || a.smaller(b) == b,
        !a.nan() || !b.nan() ==> !a.smaller(b).nan(),
        !a.smaller(b).exceeds(a),
        !a.smaller(b).exceeds(b),
{
}

} // verus!
