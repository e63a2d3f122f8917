//! IEEE 754 numbers, carried as bit patterns.
//!
//! Audio samples, times, energies and probabilities pass through the library
//! as the bits that encode them. What the library decides about such a number
//! (whether one exceeds another, what a 16-bit sample is worth) it decides on
//! the bits, and the contracts speak of the numbers that the bits stand for.
use vstd::arithmetic::power2::*;
use vstd::prelude::*;

verus! {

/// A single-precision number (`binary32`).
///
/// Two values are equal when their bits are.
#[derive(Clone, Copy, Debug, PartialEq, Eq, Structural)]
pub struct Binary32 {
    /// Sign, exponent and fraction, from the most significant bit down.
    pub bits: u32,
}

/// A double-precision number (`binary64`).
///
/// Two values are equal when their bits are.
#[derive(Clone, Copy, Debug, PartialEq, Eq, Structural)]
pub struct Binary64 {
    /// Sign, exponent and fraction, from the most significant bit down.
    pub bits: u64,
}

/// What a magnitude with `fraction_bits` bits of fraction is worth, counted in
/// units of the least positive number of its format. The pattern for infinity
/// is worth the power of two that follows the largest finite number.
pub open spec fn magnitude_worth(magnitude: nat, fraction_bits: nat) -> nat {
    let unit = pow2(fraction_bits);
    let exponent = magnitude / unit;
    let fraction = magnitude % unit;
    if exponent == 0 {
        fraction
    } else {
        (unit + fraction) * pow2((exponent - 1) as nat)
    }
}

/// A larger magnitude is worth more.
pub proof fn magnitude_worth_increases(a: nat, b: nat, fraction_bits: nat)
    requires
        a < b,
    ensures
        magnitude_worth(a, fraction_bits) < magnitude_worth(b, fraction_bits),
{
    let unit = pow2(fraction_bits);
    lemma_pow2_pos(fraction_bits);
    let (ea, fa) = (a / unit, a % unit);
    let (eb, fb) = (b / unit, b % unit);
    vstd::arithmetic::div_mod::lemma_fundamental_div_mod(a as int, unit as int);
    vstd::arithmetic::div_mod::lemma_fundamental_div_mod(b as int, unit as int);
    vstd::arithmetic::div_mod::lemma_div_is_ordered(a as int, b as int, unit as int);
    if ea == eb {
        assert(fa < fb);
        if ea > 0 {
            let scale = pow2((ea - 1) as nat);
            lemma_pow2_pos((ea - 1) as nat);
            assert((unit + fa) * scale < (unit + fb) * scale) by (nonlinear_arith)
                requires
                    fa < fb,
                    scale > 0,
            ;
        }
    } else {
        let scale = pow2((eb - 1) as nat);
        lemma_pow2_pos((eb - 1) as nat);
        assert(unit * scale <= (unit + fb) * scale) by (nonlinear_arith);
        if ea == 0 {
            assert(unit <= unit * scale) by (nonlinear_arith)
                requires
                    scale >= 1,
            ;
        } else {
            let low = pow2((ea - 1) as nat);
            lemma_pow2_pos((ea - 1) as nat);
            lemma_pow2_unfold(ea);
            if ea < (eb - 1) as nat {
                lemma_pow2_strictly_increases(ea, (eb - 1) as nat);
            }
            assert(2 * low <= scale);
            assert((unit + fa) * low < unit * scale) by (nonlinear_arith)
                requires
                    fa < unit,
                    low > 0,
                    2 * low <= scale,
            ;
        }
    }
}

/// Magnitudes compare as what they are worth.
pub proof fn magnitude_worth_orders(a: nat, b: nat, fraction_bits: nat)
    ensures
        a < b <==> magnitude_worth(a, fraction_bits) < magnitude_worth(b, fraction_bits),
        a == b <==> magnitude_worth(a, fraction_bits) == magnitude_worth(b, fraction_bits),
        magnitude_worth(0, fraction_bits) == 0,
{
    lemma_pow2_pos(fraction_bits);
    vstd::arithmetic::div_mod::lemma_small_mod(0, pow2(fraction_bits));
    vstd::arithmetic::div_mod::lemma_div_of0(pow2(fraction_bits) as int);
    if a < b {
        magnitude_worth_increases(a, b, fraction_bits);
    } else if b < a {
        magnitude_worth_increases(b, a, fraction_bits);
    }
}

/// Two to the power `exponent`.
fn power_of_two(exponent: u32) -> (power: u64)
    requires
        exponent <= 52,
    ensures
        power == pow2(exponent as nat),
        power <= 0x10_0000_0000_0000,
{
    let mut power: u64 = 1;
    let mut i: u32 = 0;
    proof {
        lemma2_to64();
        lemma2_to64_rest();
    }
    while i < exponent
        invariant
            i <= exponent <= 52,
            power == pow2(i as nat),
            power <= 0x10_0000_0000_0000,
            pow2(52) == 0x10_0000_0000_0000,
        decreases exponent - i,
    {
        proof {
            lemma_pow2_unfold((i + 1) as nat);
            if i + 1 < 52 {
                lemma_pow2_strictly_increases((i + 1) as nat, 52);
            }
        }
        power = power * 2;
        i = i + 1;
    }
    power
}

/// The power of two that leads a positive number below two to the power
/// `fraction_bits`, as an exponent and as a number, and the factor that takes it
/// to two to the power `fraction_bits`.
fn leading_power(number: u64, fraction_bits: u32) -> (lead: (u32, u64, u64))
    requires
        0 < fraction_bits <= 52,
        0 < number < pow2(fraction_bits as nat),
    ensures
        lead.0 < fraction_bits,
        lead.1 == pow2(lead.0 as nat),
        lead.1 <= number < 2 * lead.1,
        lead.2 == pow2((fraction_bits - lead.0) as nat),
        lead.1 * lead.2 == pow2(fraction_bits as nat),
{
    let mut exponent: u32 = 0;
    let mut power: u64 = 1;
    let mut factor: u64 = power_of_two(fraction_bits);
    proof {
        lemma2_to64();
    }
    while power * 2 <= number
        invariant
            exponent < fraction_bits <= 52,
            power == pow2(exponent as nat),
            factor == pow2((fraction_bits - exponent) as nat),
            power <= number < pow2(fraction_bits as nat) <= 0x10_0000_0000_0000,
        decreases fraction_bits - exponent,
    {
        proof {
            lemma_pow2_unfold((exponent + 1) as nat);
            lemma_pow2_unfold((fraction_bits - exponent) as nat);
            assert(exponent + 1 != fraction_bits);
        }
        power = power * 2;
        factor = factor / 2;
        exponent = exponent + 1;
    }
    proof {
        lemma_pow2_adds(exponent as nat, (fraction_bits - exponent) as nat);
    }
    (exponent, power, factor)
}

impl Binary32 {
    /// Whether the sign bit is set.
    pub open spec fn negative(self) -> bool {
        self.bits >= 0x8000_0000u32
    }

    /// The bits below the sign.
    pub open spec fn magnitude(self) -> nat {
        (self.bits % 0x8000_0000u32) as nat
    }

    /// Whether the pattern stands for no number.
    pub open spec fn is_nan(self) -> bool {
        self.magnitude() > 0x7f80_0000
    }

    /// The number times two to the power 149, which is always an integer.
    pub open spec fn scaled(self) -> int {
        let worth = magnitude_worth(self.magnitude(), 23) as int;
        if self.negative() {
            -worth
        } else {
            worth
        }
    }

    /// Whether this is the encoding of `sample / 32768`, zero being positive.
    pub open spec fn encodes_sample(self, sample: int) -> bool {
        &&& self.magnitude() < 0x7f80_0000
        &&& self.scaled() == sample * pow2(134)
        &&& sample == 0 ==> self.bits == 0
    }

    /// The encoding of `sample / 32768`, which needs no rounding.
    pub fn from_sample(sample: i16) -> (encoding: Binary32)
        ensures
            encoding.encodes_sample(sample as int),
    {
        if sample == 0 {
            proof {
                magnitude_worth_orders(0, 0, 23);
            }
            return Binary32 { bits: 0 };
        }
        let size: u64 = if sample < 0 {
            (-(sample as i32)) as u64
        } else {
            sample as u64
        };
        proof {
            lemma2_to64();
            lemma2_to64_rest();
        }
        let (exponent, power, factor): (u32, u64, u64) = leading_power(size, 23);
        let fraction: u64 = {
            let rest: u64 = size - power;
            proof {
                assert(0 <= rest * factor < power * factor) by (nonlinear_arith)
                    requires
                        0 <= rest < power,
                        factor > 0,
                ;
            }
            rest * factor
        };
        let biased: u64 = exponent as u64 + 112;
        let magnitude: u64 = biased * 0x80_0000 + fraction;
        proof {
            assert(magnitude / 0x80_0000 == biased && magnitude % 0x80_0000 == fraction);
            assert(magnitude_worth(magnitude as nat, 23) == size * pow2(134)) by {
                assert(power * factor + (size - power) * factor == size * factor)
                    by (nonlinear_arith);
                let high = pow2((exponent + 111) as nat);
                assert((biased - 1) as nat == (exponent + 111) as nat);
                lemma_pow2_adds((23 - exponent) as nat, (exponent + 111) as nat);
                assert((size * factor) * high == size * (factor * high)) by (nonlinear_arith);
            }
        }
        if sample < 0 {
            proof {
                assert(-(size * pow2(134)) == (-size) * pow2(134)) by (nonlinear_arith);
            }
            Binary32 { bits: (0x8000_0000 + magnitude) as u32 }
        } else {
            Binary32 { bits: magnitude as u32 }
        }
    }

    /// Whether `wide` is the same in double precision: the same number, the same
    /// infinity, or none, and of the same sign.
    pub open spec fn is_widened(self, wide: Binary64) -> bool {
        &&& wide.negative() == self.negative()
        &&& if self.magnitude() >= 0x7f80_0000 {
            wide.magnitude() == 0x7ff0_0000_0000_0000 + (self.magnitude() - 0x7f80_0000)
                * 0x2000_0000
        } else {
            wide.magnitude() < 0x7ff0_0000_0000_0000 && wide.scaled() == self.scaled() * pow2(925)
        }
    }

    /// The same in double precision.
    pub open spec fn wide(self) -> Binary64 {
        choose|wide: Binary64| self.is_widened(wide)
    }

    /// The same in double precision.
    pub fn widen(self) -> (wide: Binary64)
        ensures
            wide == self.wide(),
            self.is_widened(wide),
    {
        let small: u32 = self.bits % 0x8000_0000;
        let exponent: u64 = (small / 0x80_0000) as u64;
        let fraction: u64 = (small % 0x80_0000) as u64;
        let ghost worth = magnitude_worth(small as nat, 23);
        proof {
            lemma2_to64();
            lemma2_to64_rest();
        }
        let magnitude: u64 = if exponent == 255 {
            0x7ff0_0000_0000_0000 + fraction * 0x2000_0000
        } else if exponent > 0 {
            let magnitude: u64 = (exponent + 896) * 0x10_0000_0000_0000 + fraction * 0x2000_0000;
            proof {
                let unit = 0x10_0000_0000_0000u64;
                assert(magnitude / unit == exponent + 896 && magnitude % unit == fraction
                    * 0x2000_0000);
                let low = pow2((exponent - 1) as nat);
                let high = pow2((exponent + 895) as nat);
                lemma_pow2_adds((exponent - 1) as nat, 925);
                lemma_pow2_adds(29, (exponent + 895) as nat);
                assert((0x80_0000 + fraction) * low * pow2(925) == (0x80_0000 + fraction) * (low
                    * pow2(925))) by (nonlinear_arith);
                assert(((0x80_0000 + fraction) * 0x2000_0000) * high == (0x80_0000 + fraction) * (
                0x2000_0000 * high)) by (nonlinear_arith);
                assert(magnitude_worth(magnitude as nat, 52) == worth * pow2(925));
            }
            magnitude
        } else if fraction > 0 {
            let (lead, power, factor): (u32, u64, u64) = leading_power(fraction, 52);
            let rest: u64 = fraction - power;
            proof {
                assert(0 <= rest * factor < power * factor) by (nonlinear_arith)
                    requires
                        0 <= rest < power,
                        factor > 0,
                ;
                if lead >= 23 {
                    if lead > 23 {
                        lemma_pow2_strictly_increases(23, lead as nat);
                    }
                }
            }
            let magnitude: u64 = (lead as u64 + 874) * 0x10_0000_0000_0000 + rest * factor;
            proof {
                let unit = 0x10_0000_0000_0000u64;
                assert(magnitude / unit == lead + 874 && magnitude % unit == rest * factor);
                let high = pow2((lead + 873) as nat);
                lemma_pow2_adds((52 - lead) as nat, (lead + 873) as nat);
                assert(power * factor + rest * factor == fraction * factor) by (nonlinear_arith)
                    requires
                        rest == fraction - power,
                ;
                assert((fraction * factor) * high == fraction * (factor * high))
                    by (nonlinear_arith);
                assert(magnitude_worth(magnitude as nat, 52) == worth * pow2(925));
            }
            magnitude
        } else {
            proof {
                magnitude_worth_orders(0, 0, 52);
                magnitude_worth_orders(0, 0, 23);
                assert(worth * pow2(925) == 0) by (nonlinear_arith)
                    requires
                        worth == 0,
                ;
            }
            0
        };
        proof {
            assert(-(worth * pow2(925)) == (-worth) * pow2(925)) by (nonlinear_arith);
        }
        let wide = if self.bits >= 0x8000_0000 {
            Binary64 { bits: 0x8000_0000_0000_0000 + magnitude }
        } else {
            Binary64 { bits: magnitude }
        };
        proof {
            assert(self.is_widened(wide));
            widening_is_unique(self, wide, self.wide());
        }
        wide
    }
}

impl Binary64 {
    /// Whether the sign bit is set.
    pub open spec fn negative(self) -> bool {
        self.bits >= 0x8000_0000_0000_0000u64
    }

    /// The bits below the sign.
    pub open spec fn magnitude(self) -> nat {
        (self.bits % 0x8000_0000_0000_0000u64) as nat
    }

    /// Whether the pattern stands for no number.
    pub open spec fn is_nan(self) -> bool {
        self.magnitude() > 0x7ff0_0000_0000_0000
    }

    /// The number times two to the power 1074, which is always an integer.
    pub open spec fn scaled(self) -> int {
        let worth = magnitude_worth(self.magnitude(), 52) as int;
        if self.negative() {
            -worth
        } else {
            worth
        }
    }

    /// Whether both are numbers and this one is the smaller.
    pub open spec fn less_than(self, other: Binary64) -> bool {
        !self.is_nan() && !other.is_nan() && self.scaled() < other.scaled()
    }

    /// The number without its sign and its fraction.
    pub open spec fn whole(self) -> nat {
        magnitude_worth(self.magnitude(), 52) / pow2(1074)
    }

    /// What a cast to an integer type gives: the number without its fraction, or
    /// the nearest end of the type's range; zero where there is no number.
    pub open spec fn cast(self, least: int, greatest: int) -> int {
        let number = if self.negative() {
            -self.whole()
        } else {
            self.whole() as int
        };
        if self.is_nan() {
            0
        } else if number < least {
            least
        } else if number > greatest {
            greatest
        } else {
            number
        }
    }

    /// The number without its sign and its fraction, up to the greatest `u64`.
    fn whole_up_to_64_bits(self) -> (whole: u64)
        requires
            !self.is_nan(),
        ensures
            whole == if self.whole() > u64::MAX {
                u64::MAX as nat
            } else {
                self.whole()
            },
    {
        let magnitude: u64 = self.bits % 0x8000_0000_0000_0000;
        let exponent: u64 = magnitude / 0x10_0000_0000_0000;
        let fraction: u64 = magnitude % 0x10_0000_0000_0000;
        let ghost worth = magnitude_worth(self.magnitude(), 52) as int;
        proof {
            lemma2_to64();
            lemma2_to64_rest();
            lemma_pow2_pos(1074);
        }
        if exponent < 1023 {
            proof {
                assert(worth < pow2(1074)) by {
                    magnitude_worth_increases(
                        self.magnitude(),
                        (0x10_0000_0000_0000 * 1023) as nat,
                        52,
                    );
                    lemma_pow2_adds(52, 1022);
                }
                vstd::arithmetic::div_mod::lemma_basic_div(worth, pow2(1074) as int);
            }
            return 0;
        }
        let shift: u64 = exponent - 1023;
        let significand: u64 = 0x10_0000_0000_0000 + fraction;
        let ghost low = pow2((shift + 1022) as nat);
        proof {
            assert(worth == significand * low);
        }
        if shift <= 52 {
            let divisor: u64 = power_of_two((52 - shift) as u32);
            proof {
                lemma_pow2_adds((shift + 1022) as nat, (52 - shift) as nat);
                lemma_pow2_pos((shift + 1022) as nat);
                vstd::arithmetic::div_mod::lemma_div_multiples_vanish_quotient(
                    low as int,
                    significand as int,
                    divisor as int,
                );
                assert(significand * low == low * significand) by (nonlinear_arith);
            }
            significand / divisor
        } else if shift <= 63 {
            let factor: u64 = power_of_two((shift - 52) as u32);
            proof {
                lemma_pow2_adds((shift - 52) as nat, 1074);
                assert(significand * factor < 0x20_0000_0000_0000 * 0x800) by (nonlinear_arith)
                    requires
                        significand < 0x20_0000_0000_0000,
                        factor <= 0x800,
                ;
                assert(significand * low == (significand * factor) * pow2(1074))
                    by (nonlinear_arith)
                    requires
                        low == factor * pow2(1074),
                ;
                vstd::arithmetic::div_mod::lemma_div_multiples_vanish(
                    (significand * factor) as int,
                    pow2(1074) as int,
                );
            }
            significand * factor
        } else {
            proof {
                lemma_pow2_adds(64, 1022);
                lemma_pow2_adds(64, 1074);
                lemma_pow2_adds(52, 1086);
                if shift > 64 {
                    lemma_pow2_strictly_increases(1086, (shift + 1022) as nat);
                }
                let top = pow2(1086);
                assert(significand * low >= 0x10_0000_0000_0000 * top) by (nonlinear_arith)
                    requires
                        significand >= 0x10_0000_0000_0000,
                        low >= top,
                        top > 0,
                ;
                assert(0x10_0000_0000_0000 * top == 0x1_0000_0000_0000_0000 * pow2(1074));
                vstd::arithmetic::div_mod::lemma_div_multiples_vanish(
                    0x1_0000_0000_0000_0000,
                    pow2(1074) as int,
                );
                vstd::arithmetic::div_mod::lemma_div_is_ordered(
                    0x1_0000_0000_0000_0000 * pow2(1074) as int,
                    worth,
                    pow2(1074) as int,
                );
            }
            return u64::MAX;
        }
    }

    /// Casts to `usize`.
    pub fn to_usize(self) -> (number: usize)
        ensures
            number == self.cast(0, usize::MAX as int),
    {
        if self.bits > 0x7ff0_0000_0000_0000 {
            return 0;
        }
        let whole: u64 = self.whole_up_to_64_bits();
        if whole > usize::MAX as u64 {
            usize::MAX
        } else {
            whole as usize
        }
    }

    /// Casts to `i64`.
    pub fn to_i64(self) -> (number: i64)
        ensures
            number == self.cast(i64::MIN as int, i64::MAX as int),
    {
        if self.bits % 0x8000_0000_0000_0000 > 0x7ff0_0000_0000_0000 {
            return 0;
        }
        let whole: u64 = self.whole_up_to_64_bits();
        if self.bits < 0x8000_0000_0000_0000 {
            if whole > 0x7fff_ffff_ffff_ffff {
                i64::MAX
            } else {
                whole as i64
            }
        } else if whole > 0x7fff_ffff_ffff_ffff {
            i64::MIN
        } else {
            -(whole as i64)
        }
    }

    /// Zero.
    pub fn zero() -> (zero: Binary64)
        ensures
            zero == (Binary64 { bits: 0 }),
    {
        Binary64 { bits: 0 }
    }

    /// One.
    pub fn one() -> (one: Binary64)
        ensures
            one == Binary64::unity(),
    {
        Binary64 { bits: 0x3ff0_0000_0000_0000 }
    }

    /// The encoding of one.
    pub open spec fn unity() -> Binary64 {
        Binary64 { bits: 0x3ff0_0000_0000_0000 }
    }

    /// Whether this number is smaller than `other`. No pattern that stands for
    /// no number is smaller or larger than anything.
    pub fn lt(self, other: Binary64) -> (smaller: bool)
        ensures
            smaller == self.less_than(other),
    {
        let a: u64 = self.bits % 0x8000_0000_0000_0000;
        let b: u64 = other.bits % 0x8000_0000_0000_0000;
        proof {
            magnitude_worth_orders(a as nat, b as nat, 52);
            magnitude_worth_orders(a as nat, 0, 52);
            magnitude_worth_orders(b as nat, 0, 52);
        }
        if a > 0x7ff0_0000_0000_0000 || b > 0x7ff0_0000_0000_0000 {
            return false;
        }
        let a_negative = self.bits >= 0x8000_0000_0000_0000;
        let b_negative = other.bits >= 0x8000_0000_0000_0000;
        if a_negative && b_negative {
            b < a
        } else if a_negative {
            a != 0 || b != 0
        } else if b_negative {
            false
        } else {
            a < b
        }
    }

    /// Whether this number is larger than `other`.
    pub fn gt(self, other: Binary64) -> (larger: bool)
        ensures
            larger == other.less_than(self),
    {
        other.lt(self)
    }
}

/// There is one way to write a single-precision number in double precision.
pub proof fn widening_is_unique(narrow: Binary32, a: Binary64, b: Binary64)
    requires
        narrow.is_widened(a),
        narrow.is_widened(b),
    ensures
        a == b,
{
    magnitude_worth_orders(a.magnitude(), b.magnitude(), 52);
}

/// A 16-bit sample has one encoding.
pub proof fn sample_encoding_is_unique(a: Binary32, b: Binary32, sample: int)
    requires
        a.encodes_sample(sample),
        b.encodes_sample(sample),
    ensures
        a == b,
{
    if sample != 0 {
        let unit = pow2(134);
        lemma_pow2_pos(134);
        magnitude_worth_orders(a.magnitude(), b.magnitude(), 23);
        assert(sample > 0 ==> sample * unit > 0) by (nonlinear_arith)
            requires
                unit > 0,
        ;
        assert(sample < 0 ==> sample * unit < 0) by (nonlinear_arith)
            requires
                unit > 0,
        ;
    }
}

/// A cast gives the number of the range that is nearest to zero among those that
/// the number lies between, or the end of the range that it lies beyond.
pub proof fn casts_cut_down(number: Binary64, least: int, greatest: int)
    requires
        least <= 0 <= greatest,
    ensures
        least <= number.cast(least, greatest) <= greatest,
        number.is_nan() ==> number.cast(least, greatest) == 0,
        !number.is_nan() ==> {
            let cast = number.cast(least, greatest);
            let unit = pow2(1074);
            &&& cast > 0 ==> cast * unit <= number.scaled()
            &&& cast < 0 ==> number.scaled() <= cast * unit
            &&& 0 <= cast < greatest ==> number.scaled() < (cast + 1) * unit
            &&& least < cast <= 0 ==> (cast - 1) * unit < number.scaled()
        },
{
    let unit = pow2(1074) as int;
    lemma_pow2_pos(1074);
    let worth = magnitude_worth(number.magnitude(), 52) as int;
    vstd::arithmetic::div_mod::lemma_fundamental_div_mod(worth, unit);
    vstd::arithmetic::div_mod::lemma_mod_bound(worth, unit);
    let whole = worth / unit;
    assert(whole * unit <= worth < (whole + 1) * unit && 0 <= whole) by (nonlinear_arith)
        requires
            worth == unit * whole + worth % unit,
            0 <= worth % unit < unit,
            0 <= worth,
    ;
    let cast = number.cast(least, greatest);
    if !number.is_nan() {
        if number.negative() {
            assert(-(whole * unit) == (-whole) * unit) by (nonlinear_arith);
            assert(-((whole + 1) * unit) == (-whole - 1) * unit) by (nonlinear_arith);
            assert(least >= -whole ==> (-whole) * unit <= least * unit) by (nonlinear_arith)
                requires
                    unit > 0,
            ;
            assert(0 < (cast + 1) * unit || cast < 0) by (nonlinear_arith)
                requires
                    unit > 0,
            ;
        } else {
            assert(greatest <= whole ==> greatest * unit <= whole * unit) by (nonlinear_arith)
                requires
                    unit > 0,
            ;
            assert((cast - 1) * unit < 0 || cast > 0) by (nonlinear_arith)
                requires
                    unit > 0,
            ;
        }
    }
}

/// The encoding of one is worth one.
pub proof fn unity_is_one()
    ensures
        !Binary64::unity().is_nan(),
        Binary64::unity().scaled() == pow2(1074),
{
    lemma2_to64();
    lemma2_to64_rest();
    lemma_pow2_adds(52, 1022);
    assert(0x3ff0_0000_0000_0000nat / 0x10_0000_0000_0000nat == 1023);
    assert(0x3ff0_0000_0000_0000nat % 0x10_0000_0000_0000nat == 0);
}

proof fn leading_bit(number: nat, bits: nat) -> (lead: nat)
    requires
        0 < number < pow2(bits),
    ensures
        lead < bits,
        pow2(lead) <= number < pow2(lead + 1),
    decreases bits,
{
    if bits == 0 {
        lemma2_to64();
        0
    } else if number >= pow2((bits - 1) as nat) {
        (bits - 1) as nat
    } else {
        leading_bit(number, (bits - 1) as nat)
    }
}

/// Every single-precision number can be written in double precision, so that it
/// stays the same when it is.
pub proof fn widening_exists(narrow: Binary32)
    ensures
        narrow.is_widened(narrow.wide()),
{
    lemma2_to64();
    lemma2_to64_rest();
    let small = narrow.magnitude();
    let exponent = small / 0x80_0000;
    let fraction = small % 0x80_0000;
    let worth = magnitude_worth(small, 23);
    let unit: nat = 0x10_0000_0000_0000;
    let magnitude: nat = if exponent == 255 {
        0x7ff0_0000_0000_0000 + fraction * 0x2000_0000
    } else if exponent > 0 {
        let magnitude = (exponent + 896) * unit + fraction * 0x2000_0000;
        assert(magnitude / unit == exponent + 896 && magnitude % unit == fraction * 0x2000_0000);
        let low = pow2((exponent - 1) as nat);
        let high = pow2((exponent + 895) as nat);
        lemma_pow2_adds((exponent - 1) as nat, 925);
        lemma_pow2_adds(29, (exponent + 895) as nat);
        assert((0x80_0000 + fraction) * low * pow2(925) == (0x80_0000 + fraction) * (low * pow2(
            925,
        ))) by (nonlinear_arith);
        assert(((0x80_0000 + fraction) * 0x2000_0000) * high == (0x80_0000 + fraction) * (
        0x2000_0000 * high)) by (nonlinear_arith);
        assert(magnitude_worth(magnitude, 52) == worth * pow2(925));
        magnitude
    } else if fraction > 0 {
        let lead = leading_bit(fraction, 23);
        let power = pow2(lead);
        let factor = pow2((52 - lead) as nat);
        let rest = (fraction - power) as nat;
        lemma_pow2_pos((52 - lead) as nat);
        lemma_pow2_adds(lead, (52 - lead) as nat);
        lemma_pow2_unfold(lead + 1);
        assert(0 <= rest * factor < power * factor) by (nonlinear_arith)
            requires
                0 <= rest < power,
                factor > 0,
        ;
        let magnitude = (lead + 874) * unit + rest * factor;
        assert(magnitude / unit == lead + 874 && magnitude % unit == rest * factor);
        let high = pow2((lead + 873) as nat);
        lemma_pow2_adds((52 - lead) as nat, (lead + 873) as nat);
        assert(power * factor + rest * factor == fraction * factor) by (nonlinear_arith)
            requires
                rest == fraction - power,
        ;
        assert((fraction * factor) * high == fraction * (factor * high)) by (nonlinear_arith);
        assert(magnitude_worth(magnitude, 52) == worth * pow2(925));
        magnitude
    } else {
        magnitude_worth_orders(0, 0, 52);
        magnitude_worth_orders(0, 0, 23);
        assert(worth * pow2(925) == 0) by (nonlinear_arith)
            requires
                worth == 0,
        ;
        0
    };
    assert(-(worth * pow2(925)) == (-worth) * pow2(925)) by (nonlinear_arith);
    let wide = Binary64 {
        bits: if narrow.negative() {
            (0x8000_0000_0000_0000 + magnitude) as u64
        } else {
            magnitude as u64
        },
    };
    assert(wide.magnitude() == magnitude);
    assert(narrow.is_widened(wide));
}

} // verus!
