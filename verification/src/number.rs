//! IEEE 754 numbers, carried by their bit patterns and compared by their exact values.

use vstd::arithmetic::power2::*;
use vstd::prelude::*;

verus! {

/// A double precision number, by its bit pattern: the top bit is the sign, the next eleven are the
/// biased exponent, the other fifty-two are the fraction.
#[derive(Clone, Copy, Debug, PartialEq, Eq, Structural)]
pub struct Double {
    pub bits: u64,
}

/// The weight of the sign bit.
pub const SIGN: u64 = 0x8000_0000_0000_0000;

/// The weight of the exponent's lowest bit.
pub const UNIT: u64 = 0x10_0000_0000_0000;

/// The bits of positive infinity: every exponent bit set, no fraction.
pub const INFINITY: u64 = 0x7ff0_0000_0000_0000;

/// The magnitude that the bits `n` below the sign bit stand for, in units of the least positive
/// number, where the exponent's lowest bit weighs `unit`. Infinity comes out above every finite
/// magnitude.
pub open spec fn scaled(unit: nat, n: nat) -> nat {
    let exponent = n / unit;
    let fraction = n % unit;
    if exponent == 0 {
        fraction
    } else {
        (unit + fraction) * pow2((exponent - 1) as nat)
    }
}

/// The magnitude of a double, in units of the least positive double, two to the power of minus
/// 1074.
pub open spec fn magnitude(n: nat) -> nat {
    scaled(UNIT as nat, n)
}

/// The whole number `n` in units of the least positive double.
pub open spec fn whole(n: int) -> int {
    n * pow2(1074)
}

impl Double {
    /// The bits below the sign bit.
    pub open spec fn unsigned_bits(self) -> nat {
        (self.bits % SIGN) as nat
    }

    /// The pattern stands for no number.
    pub open spec fn is_nan(self) -> bool {
        self.unsigned_bits() > INFINITY
    }

    /// The pattern stands for a number other than the two infinities.
    pub open spec fn is_finite(self) -> bool {
        self.unsigned_bits() < INFINITY
    }

    /// The exact number, in units of the least positive double.
    pub open spec fn value(self) -> int {
        if self.bits < SIGN {
            magnitude(self.unsigned_bits()) as int
        } else {
            -(magnitude(self.unsigned_bits()) as int)
        }
    }

    /// `self` is above `other`; nothing is above or below what is not a number.
    pub open spec fn above(self, other: Double) -> bool {
        !self.is_nan() && !other.is_nan() && self.value() > other.value()
    }

    /// `self` is `other` or above it.
    pub open spec fn from_up(self, other: Double) -> bool {
        !self.is_nan() && !other.is_nan() && self.value() >= other.value()
    }

    /// The bits below the sign bit, counted down from zero where the sign bit is set.
    pub closed spec fn rank(self) -> int {
        if self.bits < SIGN {
            self.unsigned_bits() as int
        } else {
            -(self.unsigned_bits() as int)
        }
    }

    fn ranked(&self) -> (r: Option<i64>)
        ensures
            r is None <==> self.is_nan(),
            r is Some ==> r->0 == self.rank(),
    {
        let n: u64 = self.bits % SIGN;
        if n > INFINITY {
            None
        } else if self.bits < SIGN {
            Some(n as i64)
        } else {
            Some(-(n as i64))
        }
    }

    /// Whether `self` is above `other`.
    pub fn exceeds(&self, other: &Double) -> (r: bool)
        ensures
            r == self.above(*other),
    {
        proof {
            lemma_rank_orders(*self, *other);
        }
        match (self.ranked(), other.ranked()) {
            (Some(a), Some(b)) => a > b,
            _ => false,
        }
    }

    /// Whether `self` is `other` or above it.
    pub fn reaches(&self, other: &Double) -> (r: bool)
        ensures
            r == self.from_up(*other),
    {
        proof {
            lemma_rank_orders(*self, *other);
            lemma_rank_orders(*other, *self);
        }
        match (self.ranked(), other.ranked()) {
            (Some(a), Some(b)) => a >= b,
            _ => false,
        }
    }

    /// Whether `self` is a finite number above zero.
    pub fn is_usable(&self) -> (r: bool)
        ensures
            r == (self.is_finite() && self.value() > 0),
    {
        proof {
            if self.unsigned_bits() > 0 {
                lemma_magnitude_grows(0, self.unsigned_bits());
            }
        }
        0 < self.bits && self.bits < INFINITY
    }

    /// Eighty.
    pub fn eighty() -> (r: Double)
        ensures
            r.value() == whole(80),
            r.is_finite(),
    {
        let r = Double { bits: 0x4054_0000_0000_0000 };
        proof {
            assert(r.unsigned_bits() / UNIT as nat == 1029);
            assert(r.unsigned_bits() % UNIT as nat == 0x4_0000_0000_0000);
            lemma_five(1078, 1028, 0x14_0000_0000_0000);
            lemma_pow2_adds(4, 1074);
            lemma2_to64();
        }
        r
    }
}

proof fn lemma_five(high: nat, low: nat, significand: nat)
    requires
        high == low + 50,
        significand == 0x14_0000_0000_0000,
    ensures
        significand * pow2(low) == 5 * pow2(high),
{
    lemma_pow2_adds(50, low);
    lemma2_to64_rest();
    assert(significand == 5 * pow2(50));
    assert(5 * pow2(50) * pow2(low) == 5 * (pow2(50) * pow2(low))) by (nonlinear_arith);
}

/// The magnitude grows strictly with the bits.
pub proof fn lemma_magnitude_grows(n: nat, m: nat)
    requires
        n < m,
    ensures
        magnitude(n) < magnitude(m),
{
    lemma_scaled_grows(UNIT as nat, n, m);
}

/// The magnitude grows strictly with the bits, whatever the width of the fraction.
pub proof fn lemma_scaled_grows(u: nat, n: nat, m: nat)
    requires
        u > 0,
        n < m,
    ensures
        scaled(u, n) < scaled(u, m),
{
    let (en, fn_) = (n / u, n % u);
    let (em, fm) = (m / u, m % u);
    vstd::arithmetic::div_mod::lemma_div_is_ordered(n as int, m as int, u as int);
    vstd::arithmetic::div_mod::lemma_fundamental_div_mod(n as int, u as int);
    vstd::arithmetic::div_mod::lemma_fundamental_div_mod(m as int, u as int);
    if en == em {
        assert(fn_ < fm) by (nonlinear_arith)
            requires
                n == u * en + fn_,
                m == u * em + fm,
                en == em,
                n < m,
        ;
        if en > 0 {
            let p = pow2((en - 1) as nat);
            lemma_pow2_pos((en - 1) as nat);
            assert((u + fn_) * p < (u + fm) * p) by (nonlinear_arith)
                requires
                    fn_ < fm,
                    p > 0,
            ;
        }
    } else {
        assert(em > 0);
        let pm = pow2((em - 1) as nat);
        lemma_pow2_pos((em - 1) as nat);
        assert((u + fm) * pm >= u * pm) by (nonlinear_arith)
            requires
                pm > 0,
        ;
        if en == 0 {
            assert(u * pm >= u) by (nonlinear_arith)
                requires
                    pm >= 1,
            ;
        } else {
            let pn = pow2((en - 1) as nat);
            lemma_pow2_pos((en - 1) as nat);
            assert((u + fn_) * pn < 2 * u * pn) by (nonlinear_arith)
                requires
                    fn_ < u,
                    pn > 0,
            ;
            lemma_pow2_unfold(en);
            assert(2 * u * pn == u * (2 * pn)) by (nonlinear_arith);
            if en < em - 1 {
                lemma_pow2_strictly_increases(en, (em - 1) as nat);
            }
            assert(u * pow2(en) <= u * pm) by (nonlinear_arith)
                requires
                    pow2(en) <= pm,
            ;
        }
    }
}

/// The rank of a pattern orders numbers as their exact values do.
pub proof fn lemma_rank_orders(a: Double, b: Double)
    ensures
        a.rank() < b.rank() <==> a.value() < b.value(),
        a.rank() == b.rank() <==> a.value() == b.value(),
{
    let (n, m) = (a.unsigned_bits(), b.unsigned_bits());
    if n < m {
        lemma_magnitude_grows(n, m);
    }
    if m < n {
        lemma_magnitude_grows(m, n);
    }
    if n > 0 {
        lemma_magnitude_grows(0, n);
    }
    if m > 0 {
        lemma_magnitude_grows(0, m);
    }
    assert(magnitude(0) == 0);
}

/// A single precision number, by its bit pattern: the top bit is the sign, the next eight are the
/// biased exponent, the other twenty-three are the fraction.
#[derive(Clone, Copy, Debug, PartialEq, Eq, Structural)]
pub struct Single {
    pub bits: u32,
}

/// The weight of a single's sign bit.
pub const SINGLE_SIGN: u32 = 0x8000_0000;

/// The weight of the lowest bit of a single's exponent.
pub const SINGLE_UNIT: u32 = 0x80_0000;

/// The bits of a single's positive infinity.
pub const SINGLE_INFINITY: u32 = 0x7f80_0000;

/// The bits of the greatest single that is not above one fifth.
pub const LAST_TO_A_FIFTH: u32 = 0x3e4c_cccc;

impl Single {
    /// The bits below the sign bit.
    pub open spec fn unsigned_bits(self) -> nat {
        (self.bits % SINGLE_SIGN) as nat
    }

    /// The pattern stands for no number.
    pub open spec fn is_nan(self) -> bool {
        self.unsigned_bits() > SINGLE_INFINITY
    }

    /// The exact number, in units of the least positive single, two to the power of minus 149.
    pub open spec fn value(self) -> int {
        let size = scaled(SINGLE_UNIT as nat, self.unsigned_bits()) as int;
        if self.bits < SINGLE_SIGN {
            size
        } else {
            -size
        }
    }

    /// A hundred times the number is not above `percent`.
    pub open spec fn at_most_percent(self, percent: int) -> bool {
        !self.is_nan() && 100 * self.value() <= percent * pow2(149)
    }

    /// Whether a hundred times the number is not above twenty.
    pub fn at_most_twenty_percent(&self) -> (r: bool)
        ensures
            r == self.at_most_percent(20),
    {
        let n: u32 = self.bits % SINGLE_SIGN;
        proof {
            lemma_a_fifth();
            let u = SINGLE_UNIT as nat;
            if n < LAST_TO_A_FIFTH {
                lemma_scaled_grows(u, n as nat, LAST_TO_A_FIFTH as nat);
            }
            if n > LAST_TO_A_FIFTH + 1 {
                lemma_scaled_grows(u, (LAST_TO_A_FIFTH + 1) as nat, n as nat);
            }
        }
        n <= SINGLE_INFINITY && (self.bits >= SINGLE_SIGN || n <= LAST_TO_A_FIFTH)
    }
}

proof fn lemma_a_fifth()
    ensures
        100 * scaled(SINGLE_UNIT as nat, LAST_TO_A_FIFTH as nat) <= 20 * pow2(149),
        100 * scaled(SINGLE_UNIT as nat, (LAST_TO_A_FIFTH + 1) as nat) > 20 * pow2(149),
        pow2(149) > 0,
{
    let p = pow2(123);
    lemma_pow2_pos(123);
    lemma_pow2_adds(26, 123);
    lemma2_to64();
    assert(pow2(26) == 67_108_864);
    let (u, last) = (SINGLE_UNIT as nat, LAST_TO_A_FIFTH as nat);
    assert(last / u == 124 && last % u == 0x4c_cccc);
    assert((last + 1) / u == 124 && (last + 1) % u == 0x4c_cccd);
    assert(scaled(SINGLE_UNIT as nat, LAST_TO_A_FIFTH as nat) == 13_421_772 * p);
    assert(scaled(SINGLE_UNIT as nat, (LAST_TO_A_FIFTH + 1) as nat) == 13_421_773 * p);
    assert(100 * (13_421_772 * p) <= 20 * (67_108_864 * p)) by (nonlinear_arith);
    assert(100 * (13_421_773 * p) > 20 * (67_108_864 * p)) by (nonlinear_arith)
        requires
            p > 0,
    ;
}

/// Being above is a strict order of numbers: nothing is above itself, of two different values one is
/// above the other, and what is above something above is above. What is no number is above nothing
/// and below nothing.
pub proof fn lemma_above_is_a_strict_order(a: Double, b: Double, c: Double)
    ensures
        !a.above(a),
        a.above(b) ==> !b.above(a),
        a.above(b) && b.above(c) ==> a.above(c),
        !a.is_nan() && !b.is_nan() ==> a.above(b) || b.above(a) || a.value() == b.value(),
        a.is_nan() ==> !a.above(b) && !b.above(a) && !a.from_up(b) && !b.from_up(a),
        !a.is_nan() && !b.is_nan() ==> (a.from_up(b) <==> !b.above(a)),
{
}

/// What a pattern stands for: the least ones count one by one, each step of the exponent doubles, and
/// the sign bit turns the sign.
pub proof fn lemma_what_patterns_stand_for(n: nat, a: Double)
    ensures
        n < 2 * UNIT ==> magnitude(n) == n,
        n >= UNIT ==> magnitude((n + UNIT) as nat) == 2 * magnitude(n),
        a.bits < SIGN ==> a.value() == magnitude(a.bits as nat),
        a.bits >= SIGN ==> a.value() == -(magnitude((a.bits - SIGN) as nat) as int),
        a.is_finite() ==> !a.is_nan(),
{
    let u = UNIT as nat;
    lemma2_to64();
    if n < u {
        assert(n / u == 0 && n % u == n);
    } else if n < 2 * u {
        assert(n / u == 1 && n % u == n - u);
        assert(pow2(0) == 1);
        assert(magnitude(n) == (u + n % u) * pow2(0));
        assert((u + n % u) * 1 == n);
    }
    if n >= u {
        assert((n + u) / u == n / u + 1 && (n + u) % u == n % u);
        let e = (n / u - 1) as nat;
        lemma_pow2_unfold((e + 1) as nat);
        assert((u + n % u) * (2 * pow2(e)) == 2 * ((u + n % u) * pow2(e))) by (nonlinear_arith);
    }
}

/// Which patterns stand for finite numbers and which for none: of either sign, those below infinity
/// and those above it.
pub proof fn lemma_kinds_of_patterns(a: Double)
    ensures
        a.is_finite() <==> a.bits < 0x7ff0_0000_0000_0000 || 0x8000_0000_0000_0000 <= a.bits
            < 0xfff0_0000_0000_0000,
        a.is_nan() <==> 0x7ff0_0000_0000_0000 < a.bits < 0x8000_0000_0000_0000 || a.bits
            > 0xfff0_0000_0000_0000,
{
}

/// Which singles are at most twenty percent: the positive patterns up to the last one below a fifth,
/// and all negative ones that stand for a number.
pub proof fn lemma_patterns_up_to_a_fifth(a: Single)
    ensures
        a.at_most_percent(20) <==> a.bits <= 0x3e4c_cccc || 0x8000_0000 <= a.bits <= 0xff80_0000,
        a.is_nan() <==> 0x7f80_0000 < a.bits < 0x8000_0000 || a.bits > 0xff80_0000,
{
    let n = a.unsigned_bits();
    lemma_a_fifth();
    let u = SINGLE_UNIT as nat;
    if n < LAST_TO_A_FIFTH {
        lemma_scaled_grows(u, n, LAST_TO_A_FIFTH as nat);
    }
    if n > LAST_TO_A_FIFTH + 1 {
        lemma_scaled_grows(u, (LAST_TO_A_FIFTH + 1) as nat, n);
    }
}

} // verus!
