//! JavaScript numbers, held by the bits of their IEEE 754 double encoding.

use vstd::arithmetic::{div_mod, power2};
use vstd::bits;
use vstd::prelude::*;

verus! {

/// Two to the power of the number of fraction bits.
pub const FRACTION_LIMIT: u64 = 4503599627370496;

/// The lowest bit pattern with the sign bit set.
pub const SIGN_BIT: u64 = 9223372036854775808;

/// A double, given by its bit pattern.
#[derive(Clone, Copy, Debug)]
pub struct Number {
    pub bits: u64,
}

impl Number {
    /// Whether the sign bit is set.
    pub open spec fn negative(self) -> bool {
        self.bits >= SIGN_BIT
    }

    /// The biased exponent.
    pub open spec fn exponent(self) -> int {
        (self.bits as int / FRACTION_LIMIT as int) % 2048
    }

    /// The stored fraction bits.
    pub open spec fn fraction(self) -> int {
        self.bits as int % FRACTION_LIMIT as int
    }

    pub open spec fn finite(self) -> bool {
        self.exponent() != 2047
    }

    pub open spec fn nan(self) -> bool {
        !self.finite() && self.fraction() != 0
    }

    /// The significand with its hidden bit. The magnitude of a finite number is
    /// `significand * 2^(scale - 1075)`.
    pub open spec fn significand(self) -> int {
        if self.exponent() == 0 {
            self.fraction()
        } else {
            FRACTION_LIMIT + self.fraction()
        }
    }

    pub open spec fn scale(self) -> int {
        if self.exponent() == 0 {
            1
        } else {
            self.exponent()
        }
    }

    /// The magnitude of a finite number is at least `k`.
    pub open spec fn magnitude_at_least(self, k: int) -> bool {
        if self.scale() >= 1075 {
            self.significand() * power2::pow2((self.scale() - 1075) as nat) >= k
        } else {
            self.significand() >= k * power2::pow2((1075 - self.scale()) as nat)
        }
    }

    /// The number is exactly the integer `k`, which is not negative.
    pub open spec fn denotes(self, k: int) -> bool {
        &&& self.finite()
        &&& k != 0 ==> !self.negative()
        &&& self.magnitude_at_least(k)
        &&& if self.scale() >= 1075 {
            self.significand() * power2::pow2((self.scale() - 1075) as nat) == k
        } else {
            self.significand() == k * power2::pow2((1075 - self.scale()) as nat)
        }
    }

    /// The number compares greater than or equal to zero.
    pub open spec fn non_negative(self) -> bool {
        &&& !self.nan()
        &&& !self.negative() || (self.finite() && self.significand() == 0)
    }

    /// The largest integer not above a non-negative number, or the largest `u32`
    /// where that integer does not fit.
    pub open spec fn floors_to(self, k: u32) -> bool {
        if !self.finite() || self.magnitude_at_least(u32::MAX as int) {
            k == u32::MAX
        } else {
            self.magnitude_at_least(k as int) && !self.magnitude_at_least(k + 1)
        }
    }

    /// The integer that a non-negative number is cut down to.
    pub open spec fn floor(self) -> u32 {
        choose|k: u32| self.floors_to(k)
    }

    /// IEEE comparison: NaN equals nothing, both zeros are equal.
    pub open spec fn ieee_eq(self, other: Number) -> bool {
        &&& !self.nan()
        &&& !other.nan()
        &&& self.bits == other.bits || (self.finite() && other.finite() && self.significand() == 0
            && other.significand() == 0)
    }

    fn is_nan(self) -> (r: bool)
        ensures
            r == self.nan(),
    {
        (self.bits / FRACTION_LIMIT) % 2048 == 2047 && self.bits % FRACTION_LIMIT != 0
    }

    fn is_zero(self) -> (r: bool)
        ensures
            r == (self.finite() && self.significand() == 0),
    {
        (self.bits / FRACTION_LIMIT) % 2048 == 0 && self.bits % FRACTION_LIMIT == 0
    }

    /// Splits a finite number below 2^32 into its integer part and whether
    /// anything is left; a finite number of 2^32 or more gives `None`.
    fn whole_part(self) -> (r: Option<(u32, bool)>)
        requires
            self.finite(),
        ensures
            match r {
                None => self.magnitude_at_least(u32::MAX + 1),
                Some((whole, exact)) => {
                    &&& self.magnitude_at_least(whole as int)
                    &&& !self.magnitude_at_least(whole + 1)
                    &&& self.scale() < 1075
                    &&& exact == (self.significand() == whole * power2::pow2(
                        (1075 - self.scale()) as nat,
                    ))
                },
            },
    {
        let exponent: u64 = (self.bits / FRACTION_LIMIT) % 2048;
        let fraction: u64 = self.bits % FRACTION_LIMIT;
        proof {
            power2::lemma2_to64();
            power2::lemma2_to64_rest();
            assert(FRACTION_LIMIT == power2::pow2(52));
        }
        if exponent > 1054 {
            proof {
                let m = self.significand();
                if self.scale() >= 1075 {
                    power2::lemma_pow2_pos((self.scale() - 1075) as nat);
                    assert(m * power2::pow2((self.scale() - 1075) as nat) >= m) by (nonlinear_arith)
                        requires
                            m >= 0,
                            power2::pow2((self.scale() - 1075) as nat) >= 1,
                    ;
                } else {
                    let e = (1075 - self.scale()) as nat;
                    assert(e <= 20);
                    power2::lemma_pow2_adds(32, e);
                    if e < 20 {
                        power2::lemma_pow2_strictly_increases(32 + e, 52);
                    }
                    assert(power2::pow2(32) * power2::pow2(e) <= power2::pow2(52));
                    assert(u32::MAX + 1 == power2::pow2(32));
                }
            }
            return None;
        }
        if exponent < 1023 {
            proof {
                let e = (1075 - self.scale()) as nat;
                assert(e >= 53);
                if e > 53 {
                    power2::lemma_pow2_strictly_increases(53, e);
                }
                assert(power2::pow2(53) == 2 * power2::pow2(52));
                assert(self.significand() < power2::pow2(53) <= power2::pow2(e));
                assert(0 * power2::pow2(e) == 0);
                assert(1 * power2::pow2(e) == power2::pow2(e));
            }
            let exact: bool = exponent == 0 && fraction == 0;
            return Some((0, exact));
        }
        let significand: u64 = FRACTION_LIMIT + fraction;
        let shift: u64 = 1075 - exponent;
        let whole: u64 = significand >> shift;
        proof {
            let e = shift as nat;
            let d = power2::pow2(e) as int;
            let m = significand as int;
            bits::lemma_u64_shr_is_div(significand, shift);
            power2::lemma_pow2_pos(e);
            assert(whole == m / d);
            div_mod::lemma_fundamental_div_mod(m, d);
            assert(m == d * (m / d) + m % d);
            assert(0 <= m % d < d) by (nonlinear_arith)
                requires
                    d > 0,
            ;
            assert((m / d) * d <= m < (m / d + 1) * d) by (nonlinear_arith)
                requires
                    m == d * (m / d) + m % d,
                    0 <= m % d < d,
            ;
            power2::lemma_pow2_adds(32, e);
            if e > 21 {
                power2::lemma_pow2_strictly_increases(53, 32 + e);
            }
            assert(m < power2::pow2(32) * d);
            assert(m / d < power2::pow2(32)) by (nonlinear_arith)
                requires
                    m < power2::pow2(32) * d,
                    (m / d) * d <= m,
                    d > 0,
            ;
            assert(power2::pow2(32) == u32::MAX + 1);
        }
        let back: u64 = significand - whole_multiple(significand, whole, shift);
        Some((whole as u32, back == 0))
    }
}

/// `whole * 2^shift`, where `whole` is `significand` shifted right by `shift`.
fn whole_multiple(significand: u64, whole: u64, shift: u64) -> (r: u64)
    requires
        shift < 64,
        whole == significand >> shift,
    ensures
        r == whole * power2::pow2(shift as nat),
        r <= significand,
{
    proof {
        bits::lemma_u64_shr_is_div(significand, shift);
        power2::lemma_pow2_pos(shift as nat);
        let m = significand as int;
        let d = power2::pow2(shift as nat) as int;
        div_mod::lemma_fundamental_div_mod(m, d);
        assert(whole * d <= m) by (nonlinear_arith)
            requires
                m == d * (m / d) + m % d,
                m % d >= 0,
                whole == m / d,
        ;
        bits::lemma_u64_shl_is_mul(whole, shift);
    }
    whole << shift
}

impl Number {
    /// The number as an unsigned 32-bit integer, if it is one exactly.
    pub fn exact_u32(self) -> (r: Option<u32>)
        ensures
            match r {
                Some(k) => self.denotes(k as int),
                None => forall|k: u32| !self.denotes(k as int),
            },
    {
        if (self.bits / FRACTION_LIMIT) % 2048 == 2047 {
            return None;
        }
        match self.whole_part() {
            None => {
                proof {
                    assert forall|k: u32| !self.denotes(k as int) by {
                        self.lemma_at_least_bounds(u32::MAX + 1, k as int);
                    }
                }
                None
            },
            Some((whole, exact)) => {
                let negative: bool = self.bits >= SIGN_BIT;
                let fits: bool = exact && (whole == 0 || !negative);
                proof {
                    assert forall|k: u32| self.denotes(k as int) implies k == whole && fits by {
                        self.lemma_floor_unique(whole as int, k as int);
                    }
                }
                if fits {
                    Some(whole)
                } else {
                    None
                }
            },
        }
    }

    /// The number rounded down to an unsigned 32-bit integer, clamped at the
    /// largest one; `None` for NaN and for negative numbers.
    pub fn floor_u32(self) -> (r: Option<u32>)
        ensures
            match r {
                Some(k) => self.non_negative() && self.floors_to(k),
                None => !self.non_negative(),
            },
    {
        if self.is_nan() {
            return None;
        }
        if self.bits >= SIGN_BIT && !self.is_zero() {
            return None;
        }
        if (self.bits / FRACTION_LIMIT) % 2048 == 2047 {
            return Some(u32::MAX);
        }
        match self.whole_part() {
            None => {
                proof {
                    self.lemma_at_least_weakens(u32::MAX + 1, u32::MAX as int);
                }
                Some(u32::MAX)
            },
            Some((whole, _)) => {
                proof {
                    if self.magnitude_at_least(u32::MAX as int) && whole < u32::MAX {
                        self.lemma_at_least_weakens(u32::MAX as int, whole + 1);
                    }
                }
                Some(whole)
            },
        }
    }

    /// Being at least `a` implies being at least any smaller `b`.
    proof fn lemma_at_least_weakens(self, a: int, b: int)
        requires
            self.magnitude_at_least(a),
            b <= a,
        ensures
            self.magnitude_at_least(b),
    {
        if self.scale() < 1075 {
            let d = power2::pow2((1075 - self.scale()) as nat) as int;
            power2::lemma_pow2_pos((1075 - self.scale()) as nat);
            assert(b * d <= a * d) by (nonlinear_arith)
                requires
                    b <= a,
                    d > 0,
            ;
        }
    }

    /// A number of at least `a` is no integer below `a`.
    proof fn lemma_at_least_bounds(self, a: int, k: int)
        requires
            self.magnitude_at_least(a),
            k < a,
        ensures
            !self.denotes(k),
    {
        if self.scale() < 1075 {
            let d = power2::pow2((1075 - self.scale()) as nat) as int;
            power2::lemma_pow2_pos((1075 - self.scale()) as nat);
            assert(k * d < a * d) by (nonlinear_arith)
                requires
                    k < a,
                    d > 0,
            ;
        }
    }

    /// A number that denotes an integer is cut down to it and is not negative.
    pub(crate) proof fn lemma_denoted_is_floor(self, k: u32)
        requires
            self.denotes(k as int),
        ensures
            self.floors_to(k),
            self.non_negative(),
    {
        if self.magnitude_at_least(u32::MAX as int) && k < u32::MAX {
            self.lemma_at_least_bounds(u32::MAX as int, k as int);
        }
        if self.magnitude_at_least(k + 1) {
            self.lemma_at_least_bounds(k + 1, k as int);
        }
        if k == 0 && self.scale() >= 1075 {
            let s = self.significand();
            let d = power2::pow2((self.scale() - 1075) as nat) as int;
            power2::lemma_pow2_pos((self.scale() - 1075) as nat);
            assert(s > 0);
            assert(s * d > 0) by (nonlinear_arith)
                requires
                    s > 0,
                    d > 0,
            ;
        }
    }

    /// An integer number is its own integer part.
    proof fn lemma_floor_unique(self, whole: int, k: int)
        requires
            self.magnitude_at_least(whole),
            !self.magnitude_at_least(whole + 1),
            self.denotes(k),
        ensures
            k == whole,
    {
        if k < whole {
            self.lemma_at_least_bounds(whole, k);
        }
        if k > whole {
            self.lemma_at_least_weakens(k, whole + 1);
        }
    }
}

/// A number denotes at most one integer, so decoding one that denotes `k` gives
/// `k` back.
pub proof fn denoted_integer_is_unique(n: Number, j: int, k: int)
    requires
        n.denotes(j),
        n.denotes(k),
    ensures
        j == k,
{
    if j < k {
        n.lemma_at_least_bounds(k, j);
    }
    if k < j {
        n.lemma_at_least_bounds(j, k);
    }
}

/// A number is cut down to only one integer.
pub proof fn floor_is_unique(n: Number, k: u32)
    requires
        n.floors_to(k),
    ensures
        n.floor() == k,
{
    let j = n.floor();
    if n.finite() && !n.magnitude_at_least(u32::MAX as int) {
        if j < k {
            n.lemma_at_least_weakens(k as int, j + 1);
        }
        if k < j {
            n.lemma_at_least_weakens(j as int, k + 1);
        }
    }
}

impl PartialEq for Number {
    fn eq(&self, other: &Number) -> (r: bool) {
        !self.is_nan() && !other.is_nan() && (self.bits == other.bits || (self.is_zero()
            && other.is_zero()))
    }
}

impl vstd::std_specs::cmp::PartialEqSpecImpl for Number {
    open spec fn obeys_eq_spec() -> bool {
        true
    }

    open spec fn eq_spec(&self, other: &Number) -> bool {
        self.ieee_eq(*other)
    }
}

} // verus!
