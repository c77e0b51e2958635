//! Binary floating-point numbers as the bit patterns that travel on the wire.
//!
//! Positions, rotations and packet budgets are binary floating-point numbers.
//! The library holds each as its bit pattern and decides the questions it asks of
//! them (finite, within a range, which block a coordinate lies in) with integer
//! arithmetic. The model of a finite pattern is its exact value, written as an
//! integer numerator over a fixed power of two.

use vstd::arithmetic::div_mod::{
    lemma_fundamental_div_mod, lemma_fundamental_div_mod_converse, lemma_mod_bound,
    lemma_mod_pos_bound,
};
use vstd::arithmetic::mul::lemma_mul_strict_inequality;
use vstd::arithmetic::power2::{
    lemma2_to64, lemma2_to64_rest, lemma_pow2_adds, lemma_pow2_pos,
    lemma_pow2_strictly_increases, lemma_pow2_unfold, pow2,
};
use vstd::bits::lemma_u64_shl_is_mul;
use vstd::prelude::*;

verus! {

/// The exact absolute value of a pattern with `width` fraction bits, times the
/// reciprocal of the smallest positive subnormal number.
///
/// `magnitude` is the pattern without its sign bit. The value is meant for
/// patterns whose exponent field is not all ones.
pub open spec fn magnitude_numerator(width: nat, magnitude: nat) -> nat {
    let exponent = magnitude / pow2(width);
    let fraction = magnitude % pow2(width);
    if exponent == 0 {
        fraction
    } else {
        (pow2(width) + fraction) * pow2((exponent - 1) as nat)
    }
}

/// A larger magnitude is a larger value.
pub proof fn magnitudes_order_values(width: nat, a: nat, b: nat)
    requires
        a < b,
    ensures
        magnitude_numerator(width, a) < magnitude_numerator(width, b),
    decreases b - a,
{
    if a + 1 < b {
        magnitudes_order_values(width, a, (b - 1) as nat);
        successor_is_larger(width, (b - 1) as nat);
    } else {
        successor_is_larger(width, a);
    }
}

proof fn successor_is_larger(width: nat, a: nat)
    ensures
        magnitude_numerator(width, a) < magnitude_numerator(width, a + 1),
{
    let one = pow2(width) as int;
    lemma_pow2_pos(width);
    let e = a as int / one;
    let f = a as int % one;
    lemma_fundamental_div_mod(a as int, one);
    lemma_mod_pos_bound(a as int, one);
    assert(e >= 0) by (nonlinear_arith)
        requires
            a as int == one * e + f,
            a >= 0,
            f < one,
            one > 0,
    ;
    if f + 1 < one {
        assert((a + 1) as int == e * one + (f + 1)) by (nonlinear_arith)
            requires
                a as int == one * e + f,
        ;
        lemma_fundamental_div_mod_converse((a + 1) as int, one, e, f + 1);
        if e > 0 {
            lemma_pow2_pos((e - 1) as nat);
            lemma_mul_strict_inequality(one + f, one + f + 1, pow2((e - 1) as nat) as int);
        }
    } else {
        assert((a + 1) as int == (e + 1) * one + 0) by (nonlinear_arith)
            requires
                a as int == one * e + f,
                f + 1 == one,
        ;
        lemma_fundamental_div_mod_converse((a + 1) as int, one, e + 1, 0);
        lemma_pow2_pos(e as nat);
        if e > 0 {
            let low = pow2((e - 1) as nat) as int;
            let high = pow2(e as nat) as int;
            lemma_pow2_unfold(e as nat);
            assert((one + f) * low < one * high) by (nonlinear_arith)
                requires
                    high == 2 * low,
                    f < one,
                    low > 0,
            ;
        } else {
            lemma2_to64();
            assert(one * pow2(0) == one) by (nonlinear_arith)
                requires
                    pow2(0) == 1,
            ;
        }
    }
}

/// An IEEE 754 double-precision number, held as its bit pattern.
#[derive(Clone, Copy, Debug, PartialEq, Eq, Structural)]
pub struct Double {
    /// The sign bit, the eleven exponent bits and the fifty-two fraction bits.
    pub bits: u64,
}

/// The denominator over which [`Double::numerator`] is the exact value.
pub open spec fn double_unit() -> nat {
    pow2(1074)
}

impl Double {
    /// Whether the sign bit is set.
    pub open spec fn negative(self) -> bool {
        self.bits >= 0x8000_0000_0000_0000
    }

    /// The pattern without its sign bit.
    pub open spec fn magnitude(self) -> nat {
        (self.bits as nat) % 0x8000_0000_0000_0000
    }

    /// Whether the pattern denotes a number, neither infinite nor not-a-number.
    pub open spec fn finite(self) -> bool {
        self.magnitude() < 0x7ff0_0000_0000_0000
    }

    /// The exact value of a finite pattern, times [`double_unit`].
    pub open spec fn numerator(self) -> int {
        let n = magnitude_numerator(52, self.magnitude()) as int;
        if self.negative() {
            -n
        } else {
            n
        }
    }

    /// Whether the number is finite and lies in `low..=high`.
    pub open spec fn within(self, low: int, high: int) -> bool {
        &&& self.finite()
        &&& low * double_unit() <= self.numerator() <= high * double_unit()
    }

    /// The greatest integer not above a finite number.
    pub open spec fn floor(self) -> int {
        self.numerator() / (double_unit() as int)
    }

    /// Whether the pattern denotes a finite number.
    pub fn is_finite(self) -> (r: bool)
        ensures
            r == self.finite(),
    {
        self.bits % 0x8000_0000_0000_0000 < 0x7ff0_0000_0000_0000
    }

    /// The integer part of the absolute value, at most `2^63`, and whether there is
    /// no fractional part.
    fn integer_part(self) -> (r: (u64, bool))
        requires
            self.finite(),
        ensures
            ({
                let n = magnitude_numerator(52, self.magnitude()) as int;
                let whole = n / (double_unit() as int);
                &&& r.0 == if whole < 0x8000_0000_0000_0000 {
                    whole
                } else {
                    0x8000_0000_0000_0000int
                }
                &&& r.1 == (n % (double_unit() as int) == 0)
                &&& whole >= 0
            }),
    {
        proof {
            lemma2_to64();
            lemma2_to64_rest();
            lemma_pow2_pos(1074);
        }
        let magnitude: u64 = self.bits % 0x8000_0000_0000_0000;
        let exponent: u64 = magnitude / 0x10_0000_0000_0000;
        let fraction: u64 = magnitude % 0x10_0000_0000_0000;
        let ghost n = magnitude_numerator(52, self.magnitude()) as int;
        let ghost unit = double_unit() as int;
        if exponent < 1023 {
            proof {
                if exponent == 0 {
                    small_numerator(fraction as int, 0);
                } else {
                    small_numerator(0x10_0000_0000_0000 + fraction, (exponent - 1) as nat);
                }
                lemma_fundamental_div_mod_converse(n, unit, 0, n);
                if exponent > 0 {
                    lemma_pow2_pos((exponent - 1) as nat);
                    assert(n > 0) by (nonlinear_arith)
                        requires
                            n == (0x10_0000_0000_0000 + fraction) * pow2((exponent - 1) as nat),
                            pow2((exponent - 1) as nat) > 0,
                            fraction >= 0,
                    ;
                }
            }
            (0, magnitude == 0)
        } else {
            let significand: u64 = 0x10_0000_0000_0000 + fraction;
            if exponent < 1075 {
                let shift: u64 = 1075 - exponent;
                proof {
                    lemma_pow2_strictly_increases(shift as nat, 64);
                    lemma_u64_shl_is_mul(1, shift);
                }
                let divisor: u64 = 1u64 << shift;
                proof {
                    let d = divisor as int;
                    assert(d == pow2(shift as nat));
                    lemma_pow2_pos(shift as nat);
                    let k = pow2((exponent - 1) as nat) as int;
                    lemma_pow2_pos((exponent - 1) as nat);
                    lemma_pow2_adds(shift as nat, (exponent - 1) as nat);
                    assert(unit == d * k);
                    let q = significand as int / d;
                    let rem = significand as int % d;
                    lemma_fundamental_div_mod(significand as int, d);
                    lemma_mod_pos_bound(significand as int, d);
                    assert(n == q * unit + rem * k) by (nonlinear_arith)
                        requires
                            n == significand * k,
                            unit == d * k,
                            significand as int == d * q + rem,
                    ;
                    assert(0 <= rem * k < unit) by (nonlinear_arith)
                        requires
                            0 <= rem < d,
                            k > 0,
                            unit == d * k,
                    ;
                    assert(rem * k == 0 <==> rem == 0) by (nonlinear_arith)
                        requires
                            k > 0,
                    ;
                    lemma_fundamental_div_mod_converse(n, unit, q, rem * k);
                    assert(q <= significand) by (nonlinear_arith)
                        requires
                            significand as int == d * q + rem,
                            d >= 1,
                            rem >= 0,
                            significand >= 0,
                    ;
                }
                (significand / divisor, significand % divisor == 0)
            } else {
                let ghost shift = (exponent - 1075) as nat;
                proof {
                    lemma_pow2_pos(shift);
                    lemma_pow2_adds(shift, 1074);
                    let k = pow2(shift) as int;
                    assert(n == (significand * k) * unit + 0) by (nonlinear_arith)
                        requires
                            n == significand * pow2((exponent - 1) as nat),
                            pow2((exponent - 1) as nat) == k * unit,
                    ;
                    lemma_fundamental_div_mod_converse(n, unit, significand * k, 0);
                }
                if exponent <= 1085 {
                    proof {
                        let k = pow2(shift) as int;
                        if shift < 10 {
                            lemma_pow2_strictly_increases(shift, 10);
                        }
                        assert(significand * k < 0x8000_0000_0000_0000) by (nonlinear_arith)
                            requires
                                significand < 0x20_0000_0000_0000,
                                0 < k <= 1024,
                        ;
                        lemma_u64_shl_is_mul(significand, (exponent - 1075) as u64);
                    }
                    (significand << (exponent - 1075), true)
                } else {
                    proof {
                        let k = pow2(shift) as int;
                        if shift > 11 {
                            lemma_pow2_strictly_increases(11, shift);
                        }
                        assert(significand * k >= 0x8000_0000_0000_0000) by (nonlinear_arith)
                            requires
                                significand >= 0x10_0000_0000_0000,
                                k >= 2048,
                        ;
                    }
                    (0x8000_0000_0000_0000, true)
                }
            }
        }
    }

    /// The greatest integer not above a finite number, kept within `i64`.
    fn floor_i64(self) -> (r: (i64, bool))
        requires
            self.finite(),
        ensures
            r.0 == if self.floor() < i64::MIN {
                i64::MIN as int
            } else if self.floor() > i64::MAX {
                i64::MAX as int
            } else {
                self.floor()
            },
            r.1 == (self.numerator() % (double_unit() as int) == 0),
    {
        let (whole, exact) = self.integer_part();
        proof {
            lemma_pow2_pos(1074);
            let n = magnitude_numerator(52, self.magnitude()) as int;
            let unit = double_unit() as int;
            lemma_fundamental_div_mod(n, unit);
            lemma_mod_pos_bound(n, unit);
            let q = n / unit;
            let rem = n % unit;
            if self.negative() {
                if rem == 0 {
                    assert(-n == (-q) * unit + 0) by (nonlinear_arith)
                        requires
                            n == unit * q + rem,
                            rem == 0,
                    ;
                    lemma_fundamental_div_mod_converse(-n, unit, -q, 0);
                } else {
                    assert(-n == (-q - 1) * unit + (unit - rem)) by (nonlinear_arith)
                        requires
                            n == unit * q + rem,
                    ;
                    lemma_fundamental_div_mod_converse(-n, unit, -q - 1, unit - rem);
                }
            }
        }
        if self.bits < 0x8000_0000_0000_0000 {
            if whole > 0x7fff_ffff_ffff_ffff {
                (i64::MAX, exact)
            } else {
                (whole as i64, exact)
            }
        } else if whole > 0x7fff_ffff_ffff_ffff {
            (i64::MIN, exact)
        } else if exact {
            (-(whole as i64), exact)
        } else {
            (-(whole as i64) - 1, exact)
        }
    }

    /// Whether the pattern is not a number.
    pub open spec fn not_a_number(self) -> bool {
        self.magnitude() > 0x7ff0_0000_0000_0000
    }

    /// The greatest integer not above the number, kept within `i32`: an infinite number
    /// is at the end of the range, and zero stands for what is not a number.
    pub open spec fn floor_clamped(self) -> int {
        if self.not_a_number() {
            0
        } else if !self.finite() {
            if self.negative() {
                i32::MIN as int
            } else {
                i32::MAX as int
            }
        } else if self.floor() < i32::MIN {
            i32::MIN as int
        } else if self.floor() > i32::MAX {
            i32::MAX as int
        } else {
            self.floor()
        }
    }

    /// The greatest integer not above the number, kept within `i32`.
    pub fn floor_i32(self) -> (r: i32)
        ensures
            r == self.floor_clamped(),
    {
        let magnitude: u64 = self.bits % 0x8000_0000_0000_0000;
        if magnitude > 0x7ff0_0000_0000_0000 {
            return 0;
        }
        if magnitude == 0x7ff0_0000_0000_0000 {
            return if self.bits >= 0x8000_0000_0000_0000 {
                i32::MIN
            } else {
                i32::MAX
            };
        }
        let (floor, _) = self.floor_i64();
        if floor < -0x8000_0000 {
            i32::MIN
        } else if floor > 0x7fff_ffff {
            i32::MAX
        } else {
            floor as i32
        }
    }

    /// Whether the number is finite and lies in `low..=high`.
    pub fn is_within(self, low: i32, high: i32) -> (r: bool)
        ensures
            r == self.within(low as int, high as int),
    {
        if !self.is_finite() {
            return false;
        }
        let (floor, exact) = self.floor_i64();
        proof {
            let n = self.numerator();
            let unit = double_unit() as int;
            lemma_pow2_pos(1074);
            floor_compares(n, unit, low as int);
            floor_compares(n, unit, high as int);
        }
        floor >= low as i64 && (floor < high as i64 || (floor == high as i64 && exact))
    }

    /// Whether the double nearest to `count` times this number is at most `ceiling`.
    ///
    /// `halfway` is the power of two that is half the distance from `ceiling` to the
    /// next double. Rounding goes to the nearest double, and at the halfway point to
    /// the one whose last bit is zero, which is `ceiling`: so every exact product up
    /// to the halfway point counts.
    pub open spec fn rounded_product_within(self, count: int, ceiling: int, halfway: nat) -> bool {
        count * self.numerator() <= ceiling * double_unit() + pow2((1022 + halfway) as nat)
    }

    /// Whether the double nearest to `count` times this number is at most `ceiling`.
    pub fn is_rounded_product_within(self, count: u32, ceiling: u32, halfway: u32) -> (r: bool)
        requires
            self.within(1, 0x8000),
            halfway <= 32,
            ceiling <= 0x4_0000,
            count <= 0x1_0000,
        ensures
            r == self.rounded_product_within(count as int, ceiling as int, halfway as nat),
    {
        proof {
            self.exponent_of_small_integers();
            lemma2_to64();
            lemma2_to64_rest();
        }
        let magnitude: u64 = self.bits % 0x8000_0000_0000_0000;
        let exponent: u64 = magnitude / 0x10_0000_0000_0000;
        let fraction: u64 = magnitude % 0x10_0000_0000_0000;
        let significand: u128 = (0x10_0000_0000_0000 + fraction) as u128;
        let shift: u64 = exponent - 1023;
        proof {
            lemma_pow2_strictly_increases(shift as nat, 16);
            lemma_u64_shl_is_mul(1, shift);
            if halfway < 32 {
                lemma_pow2_strictly_increases(halfway as nat, 32);
            }
            lemma_u64_shl_is_mul(1, halfway as u64);
        }
        let power: u64 = 1u64 << shift;
        let slack: u64 = 1u64 << (halfway as u64);
        let ghost k = pow2(1022) as int;
        proof {
            let s = significand as int;
            lemma_pow2_pos(1022);
            lemma_pow2_adds(1022, shift as nat);
            lemma_pow2_adds(1022, 52);
            lemma_pow2_adds(1022, halfway as nat);
            assert(s * power < 0x100_0000_0000_0000_0000) by (nonlinear_arith)
                requires
                    0 <= s < 0x20_0000_0000_0000,
                    0 <= power < 0x1_0000,
            ;
            assert(0 <= s * power) by (nonlinear_arith)
                requires
                    0 <= s,
                    0 <= power,
            ;
            let sp = s * power;
            assert(0 <= count * sp < 0x1_0001 * 0x100_0000_0000_0000_0000) by (nonlinear_arith)
                requires
                    0 <= sp < 0x100_0000_0000_0000_0000,
                    0 <= count <= 0x1_0000,
            ;
            assert(count * self.numerator() == (count * sp) * k) by (nonlinear_arith)
                requires
                    self.numerator() == s * (k * power),
                    sp == s * power,
            ;
            assert(ceiling * double_unit() + pow2((1022 + halfway) as nat) == (ceiling
                * 0x10_0000_0000_0000 + slack) * k) by (nonlinear_arith)
                requires
                    double_unit() == k * 0x10_0000_0000_0000,
                    pow2((1022 + halfway) as nat) == k * slack,
            ;
            let left = count * sp;
            let right = ceiling * 0x10_0000_0000_0000 + slack;
            assert((left <= right) == (left * k <= right * k)) by (nonlinear_arith)
                requires
                    k > 0,
            ;
        }
        let scaled: u128 = significand * (power as u128);
        (count as u128) * scaled <= (ceiling as u128) * 0x10_0000_0000_0000u128 + (slack as u128)
    }

    proof fn exponent_of_small_integers(self)
        requires
            self.within(1, 0x8000),
        ensures
            !self.negative(),
            1023 <= self.magnitude() / 0x10_0000_0000_0000 < 1039,
            ({
                let e = self.magnitude() / 0x10_0000_0000_0000;
                let f = self.magnitude() % 0x10_0000_0000_0000;
                self.numerator() == (0x10_0000_0000_0000 + f) * pow2((e - 1) as nat)
            }),
    {
        lemma2_to64();
        lemma2_to64_rest();
        lemma_pow2_pos(1074);
        let m = self.magnitude();
        zero_magnitude(m);
        let one = 0x10_0000_0000_0000nat;
        assert(magnitude_numerator(52, 1023 * one) == double_unit()) by {
            lemma_fundamental_div_mod_converse((1023 * one) as int, pow2(52) as int, 1023, 0);
            lemma_pow2_adds(52, 1022);
        }
        assert(magnitude_numerator(52, 1039 * one) == 0x1_0000 * double_unit()) by {
            lemma_fundamental_div_mod_converse((1039 * one) as int, pow2(52) as int, 1039, 0);
            lemma_pow2_adds(52, 1038);
            lemma_pow2_adds(16, 1074);
        }
        if m < 1023 * one {
            magnitudes_order_values(52, m, 1023 * one);
        }
        if m > 1039 * one {
            magnitudes_order_values(52, 1039 * one, m);
        }
    }

    /// Whether this number is at most another; never so of a pattern that is not
    /// finite.
    pub fn at_most(self, other: Double) -> (r: bool)
        ensures
            r == (self.finite() && other.finite() && self.numerator() <= other.numerator()),
    {
        if !self.is_finite() || !other.is_finite() {
            return false;
        }
        let a: u64 = self.bits % 0x8000_0000_0000_0000;
        let b: u64 = other.bits % 0x8000_0000_0000_0000;
        proof {
            if a < b {
                magnitudes_order_values(52, a as nat, b as nat);
            }
            if b < a {
                magnitudes_order_values(52, b as nat, a as nat);
            }
            lemma2_to64();
            lemma2_to64_rest();
            zero_magnitude(a as nat);
            zero_magnitude(b as nat);
        }
        let left_negative = self.bits >= 0x8000_0000_0000_0000;
        let right_negative = other.bits >= 0x8000_0000_0000_0000;
        if left_negative {
            if right_negative {
                a >= b
            } else {
                true
            }
        } else if right_negative {
            a == 0 && b == 0
        } else {
            a <= b
        }
    }
}

/// The pattern of a positive integer denotes that integer.
///
/// `exponent` is the pattern's exponent field, and `significand` its fraction with
/// the leading one.
pub proof fn integer_pattern(value: Double, exponent: nat, significand: nat, n: nat)
    requires
        1023 <= exponent <= 1075,
        0x10_0000_0000_0000 <= significand < 0x20_0000_0000_0000,
        value.bits == exponent * 0x10_0000_0000_0000 + (significand - 0x10_0000_0000_0000),
        significand == n * pow2((1075 - exponent) as nat),
    ensures
        value.finite(),
        value.numerator() == n * double_unit(),
{
    lemma2_to64();
    lemma2_to64_rest();
    let one = 0x10_0000_0000_0000int;
    let m = value.magnitude() as int;
    lemma_fundamental_div_mod_converse(m, one, exponent as int, significand - one);
    let low = pow2((1075 - exponent) as nat);
    let high = pow2((exponent - 1) as nat);
    lemma_pow2_adds((1075 - exponent) as nat, (exponent - 1) as nat);
    assert(significand * high == n * double_unit()) by (nonlinear_arith)
        requires
            significand == n * low,
            low * high == double_unit(),
    ;
}

proof fn zero_magnitude(m: nat)
    ensures
        magnitude_numerator(52, 0) == 0,
        m > 0 ==> magnitude_numerator(52, m) > 0,
{
    lemma_pow2_pos(52);
    lemma_fundamental_div_mod_converse(0, pow2(52) as int, 0, 0);
    if m > 0 {
        magnitudes_order_values(52, 0, m);
    }
}

proof fn small_numerator(significand: int, shift: nat)
    requires
        0 <= significand < 0x20_0000_0000_0000,
        shift <= 1021,
    ensures
        0 <= significand * pow2(shift) < double_unit(),
{
    lemma2_to64();
    lemma2_to64_rest();
    lemma_pow2_pos(shift);
    lemma_pow2_adds(53, shift);
    assert(0 <= significand * pow2(shift) < pow2(53) * pow2(shift)) by (nonlinear_arith)
        requires
            0 <= significand < pow2(53),
            pow2(shift) > 0,
    ;
    if shift < 1021 {
        lemma_pow2_strictly_increases((53 + shift) as nat, 1074);
    }
}

proof fn floor_compares(n: int, unit: int, bound: int)
    requires
        unit > 0,
    ensures
        (n / unit >= bound) == (n >= bound * unit),
        (n / unit < bound || (n / unit == bound && n % unit == 0)) == (n <= bound * unit),
{
    lemma_fundamental_div_mod(n, unit);
    lemma_mod_bound(n, unit);
    let q = n / unit;
    let r = n % unit;
    assert((q >= bound) == (n >= bound * unit)) by (nonlinear_arith)
        requires
            n == unit * q + r,
            0 <= r < unit,
    ;
    assert((q < bound || (q == bound && r == 0)) == (n <= bound * unit)) by (nonlinear_arith)
        requires
            n == unit * q + r,
            0 <= r < unit,
    ;
}

/// An IEEE 754 single-precision number, held as its bit pattern.
#[derive(Clone, Copy, Debug, PartialEq, Eq, Structural)]
pub struct Single {
    /// The sign bit, the eight exponent bits and the twenty-three fraction bits.
    pub bits: u32,
}

/// The denominator over which [`Single::numerator`] is the exact value.
pub open spec fn single_unit() -> nat {
    pow2(149)
}

impl Single {
    /// Whether the sign bit is set.
    pub open spec fn negative(self) -> bool {
        self.bits >= 0x8000_0000
    }

    /// The pattern without its sign bit.
    pub open spec fn magnitude(self) -> nat {
        (self.bits as nat) % 0x8000_0000
    }

    /// Whether the pattern denotes a number, neither infinite nor not-a-number.
    pub open spec fn finite(self) -> bool {
        self.magnitude() < 0x7f80_0000
    }

    /// The exact value of a finite pattern, times [`single_unit`].
    pub open spec fn numerator(self) -> int {
        let n = magnitude_numerator(23, self.magnitude()) as int;
        if self.negative() {
            -n
        } else {
            n
        }
    }

    /// Whether the number is finite and lies between zero and one, both included.
    pub open spec fn fraction_of_one(self) -> bool {
        self.finite() && 0 <= self.numerator() <= single_unit()
    }

    /// Whether the pattern denotes a finite number.
    pub fn is_finite(self) -> (r: bool)
        ensures
            r == self.finite(),
    {
        self.bits % 0x8000_0000 < 0x7f80_0000
    }

    /// Whether the pattern denotes an integer.
    pub open spec fn denotes(self, n: int) -> bool {
        self.finite() && self.numerator() == n * single_unit()
    }

    /// Whether the number is finite and lies between zero and one, both included.
    pub fn is_fraction_of_one(self) -> (r: bool)
        ensures
            r == self.fraction_of_one(),
    {
        proof {
            let m = self.magnitude();
            lemma2_to64();
            lemma_pow2_pos(23);
            assert(magnitude_numerator(23, 0x3f80_0000) == single_unit()) by {
                lemma_fundamental_div_mod_converse(0x3f80_0000, pow2(23) as int, 127, 0);
                lemma_pow2_adds(23, 126);
            }
            if m < 0x3f80_0000 {
                magnitudes_order_values(23, m, 0x3f80_0000);
            }
            if m > 0x3f80_0000 {
                magnitudes_order_values(23, 0x3f80_0000, m);
            }
            lemma_fundamental_div_mod_converse(0, pow2(23) as int, 0, 0);
            if m > 0 {
                magnitudes_order_values(23, 0, m);
            }
        }
        self.bits <= 0x3f80_0000 || self.bits == 0x8000_0000
    }
}

/// The patterns of the integers from zero to three: one of each, and a second of zero.
pub proof fn patterns_of_small_integers(value: Single)
    ensures
        value.denotes(0) == (value.bits == 0 || value.bits == 0x8000_0000),
        value.denotes(1) == (value.bits == 0x3f80_0000),
        value.denotes(2) == (value.bits == 0x4000_0000),
        value.denotes(3) == (value.bits == 0x4040_0000),
{
    let unit = single_unit() as int;
    let m = value.magnitude();
    lemma2_to64();
    lemma_pow2_pos(23);
    lemma_pow2_pos(149);
    assert(magnitude_numerator(23, 0) == 0) by {
        lemma_fundamental_div_mod_converse(0, pow2(23) as int, 0, 0);
    }
    assert(magnitude_numerator(23, 0x3f80_0000) == unit) by {
        lemma_fundamental_div_mod_converse(0x3f80_0000, pow2(23) as int, 127, 0);
        lemma_pow2_adds(23, 126);
    }
    assert(magnitude_numerator(23, 0x4000_0000) == 2 * unit) by {
        lemma_fundamental_div_mod_converse(0x4000_0000, pow2(23) as int, 128, 0);
        lemma_pow2_adds(23, 127);
        lemma_pow2_adds(1, 149);
    }
    assert(magnitude_numerator(23, 0x4040_0000) == 3 * unit) by {
        lemma_fundamental_div_mod_converse(0x4040_0000, pow2(23) as int, 128, 0x40_0000);
        lemma_pow2_adds(22, 127);
        let scale = pow2(127) as int;
        assert((0x80_0000 + 0x40_0000) * scale == 3 * (0x40_0000 * scale)) by (nonlinear_arith);
    }
    integer_at(m, 0);
    integer_at(m, 0x3f80_0000);
    integer_at(m, 0x4000_0000);
    integer_at(m, 0x4040_0000);
}

/// Two magnitudes have the same value only where they are the same.
proof fn integer_at(m: nat, pattern: nat)
    ensures
        (magnitude_numerator(23, m) == magnitude_numerator(23, pattern)) == (m == pattern),
{
    if m < pattern {
        magnitudes_order_values(23, m, pattern);
    }
    if pattern < m {
        magnitudes_order_values(23, pattern, m);
    }
}

} // verus!
