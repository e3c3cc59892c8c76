//! Numbers in double precision, kept as their bits, and the whole numbers that products and
//! quotients with them come out at.

use vstd::arithmetic::power2::{
    lemma2_to64, lemma2_to64_rest, lemma_pow2_adds, lemma_pow2_pos, lemma_pow2_strictly_increases,
    lemma_pow2_unfold, pow2,
};
use vstd::prelude::*;

verus! {

/// Two to the power of 52: the fractions that a number can have.
pub const FRACTIONS: u64 = 0x10_0000_0000_0000;

/// Two to the power of 54: half of the distance between one and the number below it is one part in
/// so many.
pub const PARTS: u64 = 0x40_0000_0000_0000;

/// A number in double precision, by its bits: the sign, eleven bits of the exponent, and 52 bits of
/// the fraction.
#[derive(Clone, Copy, Debug, Default, PartialEq, Eq)]
pub struct Double {
    pub bits: u64,
}

impl Double {
    /// The sign bit is set.
    pub open spec fn negative(self) -> bool {
        self.bits as int / FRACTIONS as int >= 2048
    }

    /// The bits of the exponent.
    pub open spec fn biased(self) -> int {
        self.bits as int / FRACTIONS as int % 2048
    }

    /// The bits of the fraction.
    pub open spec fn fraction(self) -> int {
        self.bits as int % FRACTIONS as int
    }

    /// The bits stand for a number that is not infinite.
    pub open spec fn finite(self) -> bool {
        self.biased() != 2047
    }

    /// The bits stand for an infinite number.
    pub open spec fn infinite(self) -> bool {
        self.biased() == 2047 && self.fraction() == 0
    }

    /// The digits of a finite number: it is these, times two to the power of the exponent.
    pub open spec fn significand(self) -> int {
        if self.biased() == 0 {
            self.fraction()
        } else {
            FRACTIONS + self.fraction()
        }
    }

    /// The exponent that goes with the digits.
    pub open spec fn exponent(self) -> int {
        if self.biased() == 0 {
            -1074
        } else {
            self.biased() - 1075
        }
    }

    /// A finite number without its sign is a quotient of whole numbers; this is the one above.
    pub open spec fn numer(self) -> int {
        if self.exponent() >= 0 {
            self.significand() * pow2(self.exponent() as nat)
        } else {
            self.significand()
        }
    }

    /// The whole number below in that quotient.
    pub open spec fn denom(self) -> int {
        if self.exponent() >= 0 {
            1
        } else {
            pow2((-self.exponent()) as nat) as int
        }
    }

    /// The number is larger than one.
    pub open spec fn over_one(self) -> bool {
        &&& !self.negative()
        &&& self.infinite() || self.finite() && (self.biased() > 1023 || self.biased() == 1023
            && self.fraction() > 0)
    }

    /// `n` times the number, in double precision, is smaller than `size`. Nothing is smaller or
    /// larger than what is no number, such as zero times an infinite one.
    pub open spec fn times_below(self, n: int, size: int) -> bool {
        let p = n * self.numer();
        if self.finite() {
            if self.negative() && p > 0 {
                size > 0 || exceeds(p, self.denom(), -size)
            } else {
                size > 0 && !reaches(p, self.denom(), size)
            }
        } else {
            self.infinite() && n > 0 && self.negative()
        }
    }

    /// The whole part of `n` times the number, in double precision.
    pub open spec fn times(self, n: int) -> int {
        whole(n * self.numer(), self.denom())
    }

    /// The whole part of `n` divided by the number, in double precision.
    pub open spec fn dividing(self, n: int) -> int {
        if self.infinite() {
            0
        } else {
            whole(n * self.denom(), self.numer())
        }
    }
}

/// How often `n` can be halved, rounding up, until it is one: two to that power is the smallest
/// power of two that is not below `n`.
pub open spec fn halvings(n: int) -> nat
    decreases n,
{
    if n <= 1 {
        0
    } else {
        1 + halvings((n + 1) / 2)
    }
}

/// `p / q`, rounded to the nearest number in double precision, is at least the whole number `n`
/// above zero. That is so from the middle between `n` and the number below it upwards; the middle
/// itself is rounded to `n`, whose last digit is even.
pub open spec fn reaches(p: int, q: int, n: int) -> bool {
    (n * PARTS - pow2(halvings(n))) * q <= p * PARTS
}

/// `p / q`, rounded to the nearest number in double precision, is larger than the whole number `n`.
/// That is so from the middle between `n` and the number above it upwards, without the middle
/// itself. A whole number times a number is not rounded to zero unless it is zero.
pub open spec fn exceeds(p: int, q: int, n: int) -> bool {
    if n == 0 {
        p > 0
    } else {
        (n * PARTS + pow2(halvings(n + 1))) * q < p * PARTS
    }
}

/// The whole part of `p / q`, rounded to the nearest number in double precision.
pub open spec fn whole(p: int, q: int) -> int {
    if reaches(p, q, p / q + 1) {
        p / q + 1
    } else {
        p / q
    }
}

/// A whole number that is not above a power of two is halved to one in as many steps at most.
proof fn lemma_halvings(n: int, k: nat)
    requires
        n <= pow2(k),
    ensures
        halvings(n) <= k,
    decreases k,
{
    if n > 1 {
        lemma2_to64();
        if k > 0 {
            lemma_pow2_unfold(k);
            lemma_halvings((n + 1) / 2, (k - 1) as nat);
        }
    }
}

/// Whole numbers up to two to the power of 33 are far above the distance to their neighbours.
proof fn lemma_step(n: int)
    requires
        n <= 0x2_0000_0000,
    ensures
        1 <= pow2(halvings(n)) <= 0x2_0000_0000,
{
    lemma2_to64();
    lemma2_to64_rest();
    lemma_halvings(n, 33);
    lemma_pow2_pos(halvings(n));
    if halvings(n) < 33 {
        lemma_pow2_strictly_increases(halvings(n), 33);
    }
}

/// A quotient that is at least `n` reaches it; one that is not above `n - 1` does not.
proof fn lemma_reaches_far(p: int, q: int, n: int)
    requires
        q > 0,
        1 <= n <= 0x2_0000_0000,
    ensures
        p >= n * q ==> reaches(p, q, n),
        p < n * q - q ==> !reaches(p, q, n),
        reaches(p, q, n) ==> (n * q - p) * 0x20_0000 <= q,
{
    lemma_step(n);
    let t = pow2(halvings(n)) as int;
    let parts = PARTS as int;
    assert((n * parts - t) * q == n * q * parts - t * q) by (nonlinear_arith);
    assert(0 < t * q <= 0x2_0000_0000 * q) by (nonlinear_arith)
        requires
            1 <= t <= 0x2_0000_0000,
            q > 0,
    ;
}

/// A quotient whose whole part is `n - 1` reaches `n` where what is missing is small.
proof fn lemma_reaches_near(p: int, q: int, n: int, u: int)
    requires
        q > 0,
        u > 0,
        u * pow2(halvings(n)) == PARTS,
    ensures
        reaches(p, q, n) <==> (n * q - p) * u <= q,
{
    let t = pow2(halvings(n)) as int;
    lemma_pow2_pos(halvings(n));
    let missing = n * q - p;
    let parts = PARTS as int;
    assert((n * parts - t) * q == n * q * parts - t * q) by (nonlinear_arith);
    assert(n * q * parts - p * parts == missing * parts) by (nonlinear_arith)
        requires
            missing == n * q - p,
    ;
    assert(missing * parts == (missing * u) * t) by (nonlinear_arith)
        requires
            u * t == parts,
    ;
    assert((missing * u) * t <= q * t <==> missing * u <= q) by (nonlinear_arith)
        requires
            t > 0,
    ;
    assert(t * q == q * t) by (nonlinear_arith);
}

/// A quotient that is not below `n + 1` exceeds `n`; one that is below `n` does not.
proof fn lemma_exceeds_far(p: int, q: int, n: int)
    requires
        q > 0,
        0 <= n < 0x2_0000_0000,
        p >= 0,
    ensures
        p >= n * q + q ==> exceeds(p, q, n),
        p < n * q ==> !exceeds(p, q, n),
{
    lemma_step(n + 1);
    let t = pow2(halvings(n + 1)) as int;
    let parts = PARTS as int;
    assert((n * parts + t) * q == n * q * parts + t * q) by (nonlinear_arith);
    assert(0 < t * q <= 0x2_0000_0000 * q) by (nonlinear_arith)
        requires
            1 <= t <= 0x2_0000_0000,
            q > 0,
    ;
    if n == 0 {
        assert(n * q == 0) by (nonlinear_arith)
            requires
                n == 0,
        ;
    }
}

/// A quotient whose whole part is `n` exceeds it where what is left over is not too small.
proof fn lemma_exceeds_near(p: int, q: int, n: int, u: int)
    requires
        q > 0,
        u > 0,
        n > 0,
        u * pow2(halvings(n + 1)) == PARTS,
    ensures
        exceeds(p, q, n) <==> (p - n * q) * u > q,
{
    let t = pow2(halvings(n + 1)) as int;
    lemma_pow2_pos(halvings(n + 1));
    let over = p - n * q;
    let parts = PARTS as int;
    assert((n * parts + t) * q == n * q * parts + t * q) by (nonlinear_arith);
    assert(p * parts - n * q * parts == over * parts) by (nonlinear_arith)
        requires
            over == p - n * q,
    ;
    assert(over * parts == (over * u) * t) by (nonlinear_arith)
        requires
            u * t == parts,
    ;
    assert((over * u) * t > q * t <==> over * u > q) by (nonlinear_arith)
        requires
            t > 0,
    ;
    assert(t * q == q * t) by (nonlinear_arith);
}

/// The parts in half of the distance between `n` and the number below it.
fn parts_below(n: u64) -> (u: u128)
    requires
        1 <= n <= 0x2_0000_0000,
    ensures
        u * pow2(halvings(n as int)) == PARTS,
        u >= 0x20_0000,
{
    let mut u: u128 = PARTS as u128;
    let mut left: u64 = n;
    let ghost mut i: nat = 0;
    proof {
        lemma2_to64();
        lemma2_to64_rest();
        lemma_halvings(n as int, 33);
    }
    while left > 1
        invariant
            1 <= left <= 0x2_0000_0000,
            halvings(n as int) == i + halvings(left as int),
            halvings(n as int) <= 33,
            u == pow2((54 - i) as nat),
        decreases left,
    {
        proof {
            lemma_pow2_unfold((54 - i) as nat);
            i = i + 1;
        }
        left = left / 2 + left % 2;
        u = u / 2;
    }
    proof {
        lemma_pow2_adds((54 - i) as nat, i);
        if i < 33 {
            lemma_pow2_strictly_increases(21, (54 - i) as nat);
        }
    }
    u
}

/// Whether `p / q`, rounded, is at least `n`.
fn does_reach(p: u128, q: u128, n: u64) -> (yes: bool)
    requires
        0 < q,
        1 <= n <= 0x2_0000_0000,
    ensures
        yes == reaches(p as int, q as int, n as int),
{
    let f: u128 = p / q;
    let r: u128 = p % q;
    let ghost qi = q as int;
    proof {
        lemma_reaches_far(p as int, q as int, n as int);
        lemma_parts(p as int, q as int);
        lemma_order(f as int, n as int, qi);
    }
    if f >= n as u128 {
        return true;
    }
    if f + 1 < n as u128 {
        return false;
    }
    let u = parts_below(n);
    let missing: u128 = q - r;
    proof {
        lemma_reaches_near(p as int, q as int, n as int, u as int);
        assert(n as int * qi == (f + 1) * qi);
        assert((f + 1) * qi == f * qi + qi) by (nonlinear_arith);
        lemma_fits(missing as int, q as int, u as int);
    }
    missing <= q / u
}

/// Whether `p / q`, rounded, is larger than `n`.
fn does_exceed(p: u128, q: u128, n: u64) -> (yes: bool)
    requires
        0 < q,
        n < 0x2_0000_0000,
    ensures
        yes == exceeds(p as int, q as int, n as int),
{
    if n == 0 {
        return p > 0;
    }
    let f: u128 = p / q;
    let r: u128 = p % q;
    let ghost qi = q as int;
    proof {
        lemma_exceeds_far(p as int, q as int, n as int);
        lemma_parts(p as int, q as int);
        lemma_order(f as int, n as int, qi);
    }
    if f > n as u128 {
        return true;
    }
    if f < n as u128 {
        return false;
    }
    let u = parts_below(n + 1);
    proof {
        lemma_exceeds_near(p as int, q as int, n as int, u as int);
        lemma_fits(r as int, q as int, u as int);
    }
    r > q / u
}

/// The whole part of `p / q`, rounded; the quotient is below `bound`.
fn whole_part(p: u128, q: u128, bound: u64) -> (part: u64)
    requires
        0 < q,
        p < bound * q,
        bound <= 0x1_0000_0000,
    ensures
        part == whole(p as int, q as int),
{
    let f: u128 = p / q;
    proof {
        lemma_parts(p as int, q as int);
        lemma_order(f as int, bound as int, q as int);
    }
    let n: u64 = f as u64 + 1;
    if does_reach(p, q, n) {
        n
    } else {
        f as u64
    }
}

/// A number is its whole part times the divisor, and what is left over.
proof fn lemma_parts(p: int, q: int)
    requires
        q > 0,
        p >= 0,
    ensures
        p == (p / q) * q + p % q,
        0 <= p % q < q,
        p / q >= 0,
{
    assert(p == (p / q) * q + p % q && 0 <= p % q < q && p / q >= 0) by (nonlinear_arith)
        requires
            q > 0,
            p >= 0,
    ;
}

/// How multiples of a number are ordered.
proof fn lemma_order(f: int, n: int, q: int)
    requires
        q > 0,
    ensures
        f >= n ==> f * q >= n * q,
        f + 1 < n ==> f * q + q <= n * q - q,
        f < n ==> f * q + q <= n * q,
        f > n ==> f * q >= n * q + q,
        f == n ==> f * q == n * q,
{
    assert(f >= n ==> f * q >= n * q) by (nonlinear_arith)
        requires
            q > 0,
    ;
    assert(f + 1 < n ==> f * q + q <= n * q - q) by (nonlinear_arith)
        requires
            q > 0,
    ;
    assert(f < n ==> f * q + q <= n * q) by (nonlinear_arith)
        requires
            q > 0,
    ;
    assert(f > n ==> f * q >= n * q + q) by (nonlinear_arith)
        requires
            q > 0,
    ;
}

/// A number fits `u` times where it is not above the whole part of the quotient.
proof fn lemma_fits(a: int, q: int, u: int)
    requires
        u > 0,
        q >= 0,
    ensures
        a * u <= q <==> a <= q / u,
{
    assert(a * u <= q <==> a <= q / u) by (nonlinear_arith)
        requires
            u > 0,
            q >= 0,
    ;
}

/// A number above one is finite with a larger number above than below, or infinite.
pub(crate) proof fn lemma_over_one(s: Double)
    requires
        s.over_one(),
        s.finite(),
    ensures
        s.numer() > s.denom() > 0,
        s.exponent() >= -52,
        s.exponent() >= 0 ==> s.numer() >= FRACTIONS,
        s.exponent() < 0 ==> s.denom() <= FRACTIONS,
{
    let e = s.exponent();
    lemma2_to64();
    lemma2_to64_rest();
    if e >= 0 {
        let f = pow2(e as nat) as int;
        let m = s.significand();
        lemma_pow2_pos(e as nat);
        assert(m * f >= m) by (nonlinear_arith)
            requires
                m > 0,
                f > 0,
        ;
    } else {
        lemma_pow2_pos((-e) as nat);
        if e > -52 {
            lemma_pow2_strictly_increases((-e) as nat, 52);
        }
    }
}

/// How far the whole part of a rounded quotient can be from the quotient.
pub(crate) proof fn lemma_whole(p: int, q: int, bound: int)
    requires
        q > 0,
        0 <= p < bound * q,
        bound <= 0x1_0000_0000,
    ensures
        0 <= whole(p, q) <= bound,
        p - q < whole(p, q) * q,
        (whole(p, q) * q - p) * 0x20_0000 <= q,
        p % q == 0 ==> whole(p, q) == p / q,
        p <= (bound - 1) * q ==> whole(p, q) <= bound - 1,
{
    let f = p / q;
    lemma_parts(p, q);
    lemma_order(f, bound, q);
    lemma_order(f, bound - 1, q);
    lemma_reaches_far(p, q, f + 1);
    assert((f + 1) * q == f * q + q) by (nonlinear_arith);
    assert((bound - 1) * q == bound * q - q) by (nonlinear_arith);
}

/// A product that stays below a size has a whole part below it.
pub(crate) proof fn lemma_times(s: Double, n: int, size: int)
    requires
        s.over_one(),
        0 <= n,
        size <= i32::MAX,
        s.times_below(n, size),
    ensures
        s.finite(),
        n * s.numer() < size * s.denom(),
        0 <= s.times(n) < size,
{
    lemma_over_one(s);
    let p = n * s.numer();
    let q = s.denom();
    assert(p >= 0) by (nonlinear_arith)
        requires
            p == n * s.numer(),
            n >= 0,
            s.numer() > 0,
    ;
    lemma_reaches_far(p, q, size);
    lemma_whole(p, q, size);
    lemma_parts(p, q);
    lemma_order(p / q, size, q);
}

/// A quotient by a number above one is not above what is divided.
pub(crate) proof fn lemma_dividing(s: Double, n: int)
    requires
        s.over_one(),
        0 <= n <= u32::MAX,
    ensures
        0 <= s.dividing(n) <= n,
        s.finite() ==> 0 <= n * s.denom() < 0x1_0000_0000 * s.numer(),
{
    if s.finite() {
        lemma_over_one(s);
        let a = s.numer();
        let b = s.denom();
        let p = n * b;
        assert(0 <= p <= n * a) by (nonlinear_arith)
            requires
                p == n * b,
                0 <= n,
                0 < b < a,
        ;
        assert((n + 1) * a == n * a + a && n * a < 0x1_0000_0000 * a) by (nonlinear_arith)
            requires
                0 <= n <= 0xffff_ffff,
                a > 0,
        ;
        lemma_whole(p, a, n + 1);
    }
}

/// What the numbers above and below are like.
proof fn lemma_ratio(s: Double)
    requires
        s.finite(),
    ensures
        s.denom() > 0,
        0 <= s.significand() < 2 * FRACTIONS,
        s.exponent() >= 0 ==> s.numer() >= FRACTIONS,
{
    let e = s.exponent();
    if e >= 0 {
        let f = pow2(e as nat) as int;
        let m = s.significand();
        lemma_pow2_pos(e as nat);
        assert(m * f >= m) by (nonlinear_arith)
            requires
                m > 0,
                f > 0,
        ;
    } else {
        lemma_pow2_pos((-e) as nat);
    }
}

/// Two to a power.
fn power(k: u64) -> (r: u128)
    requires
        k <= 127,
    ensures
        r == pow2(k as nat),
{
    let mut r: u128 = 1;
    let mut i: u64 = 0;
    proof {
        lemma2_to64();
    }
    while i < k
        invariant
            i <= k <= 127,
            r == pow2(i as nat),
        decreases k - i,
    {
        proof {
            lemma_pow2_unfold((i + 1) as nat);
            if i < 126 {
                lemma_pow2_strictly_increases(i as nat, 126);
            }
            lemma_pow2_adds(63, 63);
            lemma2_to64_rest();
        }
        r = r * 2;
        i += 1;
    }
    r
}

/// A quotient far below one reaches no whole number above zero, and exceeds none.
proof fn lemma_tiny(p: int, q: int, n: int)
    requires
        0 <= p,
        2 * p <= q,
        q > 0,
        0 <= n <= 0x1_0000_0000,
    ensures
        n > 0 ==> !reaches(p, q, n),
        n > 0 ==> !exceeds(p, q, n),
{
    if n > 0 {
        lemma_exceeds_far(p, q, n);
        lemma_reaches_far(p, q, n);
        assert(n * q >= q) by (nonlinear_arith)
            requires
                n > 0,
                q > 0,
        ;
    }
}

impl Double {
    /// The sign, the bits of the exponent and the bits of the fraction.
    fn parts(&self) -> (parts: (bool, u64, u64))
        ensures
            parts.0 == self.negative(),
            parts.1 == self.biased(),
            parts.2 == self.fraction(),
            parts.1 < 2048,
            parts.2 < FRACTIONS,
    {
        let high: u64 = self.bits / FRACTIONS;
        (high >= 2048, high % 2048, self.bits % FRACTIONS)
    }

    /// Whether the number is larger than one.
    pub fn is_over_one(&self) -> (yes: bool)
        ensures
            yes == self.over_one(),
    {
        let (negative, biased, fraction) = self.parts();
        if negative {
            return false;
        }
        if biased == 2047 {
            return fraction == 0;
        }
        biased > 1023 || biased == 1023 && fraction > 0
    }

    /// Whether `n` times the number, in double precision, is smaller than `size`.
    pub fn times_is_below(&self, n: u32, size: i32) -> (yes: bool)
        ensures
            yes == self.times_below(n as int, size as int),
    {
        let (negative, biased, fraction) = self.parts();
        if biased == 2047 {
            return fraction == 0 && n > 0 && negative;
        }
        proof {
            lemma_ratio(*self);
        }
        if biased >= 1075 {
            let ghost p = n * self.numer();
            proof {
                let a = self.numer();
                assert(n >= 1 ==> p >= a) by (nonlinear_arith)
                    requires
                        p == n * a,
                        a > 0,
                ;
                assert(n == 0 ==> p == 0) by (nonlinear_arith)
                    requires
                        p == n * a,
                ;
                if size > 0 {
                    lemma_reaches_far(p, 1, size as int);
                    lemma_tiny(0, 1, size as int);
                } else {
                    lemma_exceeds_far(p, 1, -size);
                }
            }
            return if n == 0 {
                size > 0
            } else {
                negative
            };
        }
        let m: u64 = if biased == 0 {
            fraction
        } else {
            FRACTIONS + fraction
        };
        let k: u64 = if biased == 0 {
            1074
        } else {
            1075 - biased
        };
        assert(0 <= n * m <= 0xffff_ffff * 0x1f_ffff_ffff_ffff) by (nonlinear_arith)
            requires
                0 <= n <= 0xffff_ffff,
                0 <= m <= 0x1f_ffff_ffff_ffff,
        ;
        let p: u128 = n as u128 * m as u128;
        if k > 127 {
            proof {
                lemma_pow2_strictly_increases(127, k as nat);
                lemma_pow2_adds(63, 64);
                lemma2_to64();
                lemma2_to64_rest();
                if size > 0 {
                    lemma_tiny(p as int, self.denom(), size as int);
                } else {
                    lemma_tiny(p as int, self.denom(), -size);
                }
            }
            return size > 0 || negative && p > 0 && size == 0;
        }
        let q = power(k);
        if negative && p > 0 {
            if size > 0 {
                true
            } else {
                does_exceed(p, q, (-(size as i64)) as u64)
            }
        } else {
            size > 0 && !does_reach(p, q, size as u64)
        }
    }

    /// The whole part of `n` times the number, in double precision; the product is below `size`.
    pub fn multiply(&self, n: u32, size: i32) -> (product: u64)
        requires
            self.over_one(),
            self.times_below(n as int, size as int),
        ensures
            product == self.times(n as int),
            product < size,
    {
        let (_, biased, fraction) = self.parts();
        proof {
            lemma_over_one(*self);
            lemma_times(*self, n as int, size as int);
        }
        if biased >= 1075 {
            proof {
                let a = self.numer();
                let p = n * a;
                assert(n >= 1 ==> p >= a) by (nonlinear_arith)
                    requires
                        p == n * a,
                        a > 0,
                ;
                assert(n == 0 ==> p == 0) by (nonlinear_arith)
                    requires
                        p == n * a,
                ;
                lemma_reaches_far(p, 1, size as int);
                lemma_tiny(0, 1, 1);
            }
            return 0;
        }
        let m: u64 = FRACTIONS + fraction;
        assert(0 <= n * m <= 0xffff_ffff * 0x1f_ffff_ffff_ffff) by (nonlinear_arith)
            requires
                0 <= n <= 0xffff_ffff,
                0 <= m <= 0x1f_ffff_ffff_ffff,
        ;
        whole_part(n as u128 * m as u128, power(1075 - biased), size as u64)
    }

    /// The whole part of `n` divided by the number, in double precision.
    pub fn divide(&self, n: u32) -> (quotient: u64)
        requires
            self.over_one(),
        ensures
            quotient == self.dividing(n as int),
            quotient <= n,
    {
        let (_, biased, fraction) = self.parts();
        if biased == 2047 {
            return 0;
        }
        proof {
            lemma_over_one(*self);
            lemma_dividing(*self, n as int);
        }
        if biased >= 1075 {
            proof {
                let a = self.numer();
                lemma_tiny(n as int, a, 1);
                assert(n as int / a == 0) by (nonlinear_arith)
                    requires
                        0 <= n < a,
                ;
                assert(n * self.denom() == n);
            }
            return 0;
        }
        let m: u64 = FRACTIONS + fraction;
        let q = power(1075 - biased);
        assert(0 <= n * q <= 0xffff_ffff * 0x10_0000_0000_0000) by (nonlinear_arith)
            requires
                0 <= n <= 0xffff_ffff,
                0 <= q <= 0x10_0000_0000_0000,
        ;
        whole_part(n as u128 * q, m as u128, 0x1_0000_0000)
    }
}

} // verus!
