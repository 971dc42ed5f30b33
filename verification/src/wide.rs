//! Unsigned 256-bit integers, as far as exact fractions need them.

use vstd::prelude::*;

verus! {

/// 2^64, the base in which a product is carried from one half to the other.
pub open spec fn limb_base() -> int {
    0x1_0000_0000_0000_0000
}

/// 2^128, the weight of the high half.
pub open spec fn half_base() -> int {
    0x1_0000_0000_0000_0000_0000_0000_0000_0000int
}

/// 2^256, the first number that no `U256` holds.
pub open spec fn full_base() -> int {
    half_base() * half_base()
}

/// An unsigned integer below 2^256, held as two halves.
#[derive(Clone, Copy, Debug, PartialEq, Eq, Structural)]
pub struct U256 {
    /// The upper 128 bits.
    pub hi: u128,
    /// The lower 128 bits.
    pub lo: u128,
}

impl View for U256 {
    type V = nat;

    open spec fn view(&self) -> nat {
        (self.hi as int * half_base() + self.lo as int) as nat
    }
}

/// Two values that denote the same number have the same halves.
pub proof fn lemma_view_injective(a: U256, b: U256)
    requires
        a@ == b@,
    ensures
        a == b,
{
    assert(a.hi == b.hi) by (nonlinear_arith)
        requires
            a.hi as int * half_base() + a.lo as int == b.hi as int * half_base() + b.lo as int,
            0 <= a.lo < half_base(),
            0 <= b.lo < half_base(),
    ;
}

/// Every value is below 2^256.
pub proof fn lemma_view_bound(a: U256)
    ensures
        a@ < full_base(),
{
    assert(a.hi as int * half_base() + (a.lo as int) < half_base() * half_base())
        by (nonlinear_arith)
        requires
            0 <= a.hi < half_base(),
            0 <= a.lo < half_base(),
    ;
}

impl U256 {
    /// The value `x`, widened.
    pub fn from_u128(x: u128) -> (r: U256)
        ensures
            r@ == x,
    {
        U256 { hi: 0, lo: x }
    }

    /// Whether the value is zero.
    pub fn is_zero(&self) -> (z: bool)
        ensures
            z == (self@ == 0),
    {
        proof {
            assert(self.hi != 0 ==> self.hi as int * half_base() >= half_base())
                by (nonlinear_arith);
        }
        self.hi == 0 && self.lo == 0
    }

    /// The sum of two values, where it is below 2^256.
    pub fn add(&self, other: &U256) -> (r: U256)
        requires
            self@ + other@ < full_base(),
        ensures
            r@ == self@ + other@,
    {
        let room: u128 = u128::MAX - other.lo;
        proof {
            let total: int = self.hi as int + other.hi as int;
            assert(total < half_base()) by (nonlinear_arith)
                requires
                    total * half_base() + (self.lo as int + other.lo as int) < half_base()
                        * half_base(),
                    self.lo as int + other.lo as int >= 0,
                    total >= 0,
            ;
            assert((self.hi as int + other.hi as int) * half_base() == self.hi as int
                * half_base() + other.hi as int * half_base()) by (nonlinear_arith);
        }
        if self.lo <= room {
            U256 { hi: self.hi + other.hi, lo: self.lo + other.lo }
        } else {
            proof {
                let total: int = self.hi as int + other.hi as int + 1;
                assert(total < half_base()) by (nonlinear_arith)
                    requires
                        (total - 1) * half_base() + (self.lo as int + other.lo as int)
                            < half_base() * half_base(),
                        self.lo as int + other.lo as int >= half_base(),
                        total >= 1,
                ;
                assert((self.hi as int + other.hi as int + 1) * half_base() == self.hi as int
                    * half_base() + other.hi as int * half_base() + half_base())
                    by (nonlinear_arith);
            }
            U256 { hi: self.hi + other.hi + 1, lo: self.lo - room - 1 }
        }
    }

    /// The product with a 64-bit factor, where it is below 2^256.
    pub fn mul_u64(&self, m: u64) -> (r: U256)
        requires
            self@ * m < full_base(),
        ensures
            r@ == self@ * m,
    {
        let base: u128 = 0x1_0000_0000_0000_0000;
        let factor: u128 = m as u128;
        let low: u128 = self.lo % base;
        let high: u128 = self.lo / base;
        proof {
            lemma_limb_product(low as int, factor as int);
            lemma_limb_product(high as int, factor as int);
        }
        let low_part: u128 = low * factor;
        let high_part: u128 = high * factor;
        let middle: u128 = low_part / base + high_part % base;
        let lo: u128 = (middle % base) * base + low_part % base;
        let carry: u128 = high_part / base + middle / base;
        proof {
            lemma_carry(self.lo as int, factor as int, low as int, high as int, low_part as int, high_part as int,
                middle as int, lo as int, carry as int);
            lemma_high_fits(self.hi as int, self.lo as int, factor as int, lo as int, carry as int);
        }
        let hi: u128 = self.hi * factor + carry;
        U256 { hi, lo }
    }
}

/// The product of two numbers below 2^64 is below 2^128.
proof fn lemma_limb_product(a: int, b: int)
    requires
        0 <= a < limb_base(),
        0 <= b < limb_base(),
    ensures
        0 <= a * b < half_base(),
{
    assert(0 <= a * b <= (limb_base() - 1) * (limb_base() - 1)) by (nonlinear_arith)
        requires
            0 <= a <= limb_base() - 1,
            0 <= b <= limb_base() - 1,
    ;
}

/// Splitting `x * m` at 2^128 into a low half `lo` and what is carried.
proof fn lemma_carry(
    x: int,
    m: int,
    low: int,
    high: int,
    low_part: int,
    high_part: int,
    middle: int,
    lo: int,
    carry: int,
)
    requires
        x == high * limb_base() + low,
        low_part == low * m,
        high_part == high * m,
        middle == low_part / limb_base() + high_part % limb_base(),
        lo == (middle % limb_base()) * limb_base() + low_part % limb_base(),
        carry == high_part / limb_base() + middle / limb_base(),
    ensures
        x * m == carry * half_base() + lo,
{
    let b = limb_base();
    assert(x * m == high_part * b + low_part) by (nonlinear_arith)
        requires
            x == high * b + low,
            low_part == low * m,
            high_part == high * m,
    ;
    assert(high_part * b == (high_part / b) * (b * b) + (high_part % b) * b) by (nonlinear_arith)
        requires
            high_part == (high_part / b) * b + high_part % b,
    ;
    assert(b * b == half_base());
    assert(middle * b == (low_part / b) * b + (high_part % b) * b) by (nonlinear_arith)
        requires
            middle == low_part / b + high_part % b,
    ;
    assert(middle * b == (middle / b) * (b * b) + (middle % b) * b) by (nonlinear_arith)
        requires
            middle == (middle / b) * b + middle % b,
    ;
    assert(carry * half_base() == (high_part / b) * (b * b) + (middle / b) * (b * b))
        by (nonlinear_arith)
        requires
            carry == high_part / b + middle / b,
            half_base() == b * b,
    ;
}

/// Where the whole product fits, so does its high half.
proof fn lemma_high_fits(hi: int, x: int, m: int, lo: int, carry: int)
    requires
        0 <= hi,
        0 <= m,
        0 <= lo,
        0 <= carry,
        x * m == carry * half_base() + lo,
        (hi * half_base() + x) * m < half_base() * half_base(),
    ensures
        hi * m + carry < half_base(),
        0 <= hi * m,
        (hi * half_base() + x) * m == (hi * m + carry) * half_base() + lo,
{
    assert((hi * half_base() + x) * m == (hi * m + carry) * half_base() + lo)
        by (nonlinear_arith)
        requires
            x * m == carry * half_base() + lo,
    ;
    assert(0 <= hi * m) by (nonlinear_arith)
        requires
            0 <= hi,
            0 <= m,
    ;
    assert(hi * m + carry < half_base()) by (nonlinear_arith)
        requires
            (hi * m + carry) * half_base() + lo < half_base() * half_base(),
            0 <= lo,
    ;
}

} // verus!
