//! A saturating fixed-point scalar.
//!
//! A [`Fixed`] stores a real number as `bits / 65536`: a signed 48.16
//! fixed-point value. Results that would leave the representable range
//! saturate at the nearest bound instead of wrapping, so every operation is
//! total and carries an exact contract over the stored bits.

use vstd::prelude::*;

verus! {

/// Number of bit-units per one: a [`Fixed`] with `bits == SCALE` is 1.0.
pub const SCALE: i64 = 65536;

/// Saturates an unbounded integer into the `i64` range.
pub open spec fn sat64(x: int) -> int {
    if x > i64::MAX {
        i64::MAX as int
    } else if x < i64::MIN {
        i64::MIN as int
    } else {
        x
    }
}

/// The magnitude of an integer.
pub open spec fn abs_int(a: int) -> int {
    if a >= 0 {
        a
    } else {
        -a
    }
}

/// Division truncating toward zero: the semantics of `/` on Rust's signed
/// integers, as opposed to the Euclidean `/` of spec arithmetic.
pub open spec fn tdiv(a: int, b: int) -> int {
    if (a >= 0) == (b >= 0) {
        abs_int(a) / abs_int(b)
    } else {
        -(abs_int(a) / abs_int(b))
    }
}

/// The greatest `r` with `r * r <= n`.
pub open spec fn isqrt_spec(n: nat) -> nat
    decreases n,
{
    if n == 0 {
        0
    } else {
        let p = isqrt_spec((n - 1) as nat);
        if (p + 1) * (p + 1) <= n {
            p + 1
        } else {
            p
        }
    }
}

/// `isqrt_spec(n)` is the integer square root: it squares to at most `n`,
/// and the next integer squares to more.
pub proof fn lemma_isqrt_spec_bounds(n: nat)
    ensures
        isqrt_spec(n) * isqrt_spec(n) <= n,
        (isqrt_spec(n) + 1) * (isqrt_spec(n) + 1) > n,
    decreases n,
{
    if n == 0 {
        let s = isqrt_spec(n);
        assert(s == 0);
        assert((s + 1) * (s + 1) == 1) by (nonlinear_arith)
            requires
                s == 0,
        ;
    } else {
        lemma_isqrt_spec_bounds((n - 1) as nat);
        let p = isqrt_spec((n - 1) as nat);
        if (p + 1) * (p + 1) <= n {
            assert(isqrt_spec(n) == p + 1);
            assert((p + 1) * (p + 1) > n - 1);
            assert((p + 1) * (p + 1) == n);
            assert((p + 2) * (p + 2) > (p + 1) * (p + 1)) by (nonlinear_arith);
            assert((isqrt_spec(n) + 1) * (isqrt_spec(n) + 1) == (p + 2) * (p + 2));
        } else {
            assert(isqrt_spec(n) == p);
            assert(p * p <= n - 1 <= n);
        }
        assert(isqrt_spec(n) * isqrt_spec(n) <= n);
        assert((isqrt_spec(n) + 1) * (isqrt_spec(n) + 1) > n);
    }
}

/// Any value sandwiched like an integer square root is the integer square root.
pub proof fn lemma_isqrt_unique(n: nat, r: nat)
    requires
        r * r <= n,
        (r + 1) * (r + 1) > n,
    ensures
        r == isqrt_spec(n),
{
    lemma_isqrt_spec_bounds(n);
    let s = isqrt_spec(n);
    if r < s {
        assert((r + 1) * (r + 1) <= s * s) by (nonlinear_arith)
            requires
                r + 1 <= s,
        ;
    }
    if s < r {
        assert((s + 1) * (s + 1) <= r * r) by (nonlinear_arith)
            requires
                s + 1 <= r,
        ;
    }
}

/// A fixed-point scalar with value `bits / 65536`.
#[derive(Clone, Copy, Debug, PartialEq, Eq, Structural)]
#[verifier::ext_equal]
pub struct Fixed {
    pub bits: i64,
}

/// The magnitude of an `i64`, widened so that `i64::MIN` needs no special case.
fn abs_to_u64(x: i64) -> (r: u64)
    ensures
        r as int == abs_int(x as int),
{
    if x < 0 {
        (-(x as i128)) as u64
    } else {
        x as u64
    }
}

/// Saturates an `i128` into the `i64` range.
fn clamp_to_i64(x: i128) -> (r: i64)
    ensures
        r as int == sat64(x as int),
{
    if x > i64::MAX as i128 {
        i64::MAX
    } else if x < i64::MIN as i128 {
        i64::MIN
    } else {
        x as i64
    }
}

impl Fixed {
    /// The scalar with the given raw bit count; its value is `bits / 65536`.
    pub fn from_bits(bits: i64) -> (r: Fixed)
        ensures
            r.bits == bits,
    {
        Fixed { bits }
    }

    /// The scalar representing the integer `n`, saturated at the range bounds.
    pub open spec fn spec_from_int(n: int) -> Fixed {
        Fixed { bits: sat64(n * SCALE) as i64 }
    }

    pub fn from_int(n: i64) -> (r: Fixed)
        ensures
            r == Fixed::spec_from_int(n as int),
    {
        let wide: i128 = (n as i128) * 65536;
        Fixed { bits: clamp_to_i64(wide) }
    }

    pub open spec fn spec_zero() -> Fixed {
        Fixed { bits: 0 }
    }

    pub fn zero() -> (r: Fixed)
        ensures
            r == Fixed::spec_zero(),
    {
        Fixed { bits: 0 }
    }

    pub open spec fn spec_one() -> Fixed {
        Fixed { bits: SCALE }
    }

    pub fn one() -> (r: Fixed)
        ensures
            r == Fixed::spec_one(),
    {
        Fixed { bits: SCALE }
    }

    /// Saturating addition.
    pub open spec fn spec_plus(self, other: Fixed) -> Fixed {
        Fixed { bits: sat64(self.bits + other.bits) as i64 }
    }

    pub fn plus(self, other: Fixed) -> (r: Fixed)
        ensures
            r == self.spec_plus(other),
    {
        let wide: i128 = self.bits as i128 + other.bits as i128;
        Fixed { bits: clamp_to_i64(wide) }
    }

    /// Saturating subtraction.
    pub open spec fn spec_minus(self, other: Fixed) -> Fixed {
        Fixed { bits: sat64(self.bits - other.bits) as i64 }
    }

    pub fn minus(self, other: Fixed) -> (r: Fixed)
        ensures
            r == self.spec_minus(other),
    {
        let wide: i128 = self.bits as i128 - other.bits as i128;
        Fixed { bits: clamp_to_i64(wide) }
    }

    /// Saturating negation.
    pub open spec fn spec_neg(self) -> Fixed {
        Fixed { bits: sat64(-self.bits) as i64 }
    }

    pub fn neg(self) -> (r: Fixed)
        ensures
            r == self.spec_neg(),
    {
        let wide: i128 = -(self.bits as i128);
        Fixed { bits: clamp_to_i64(wide) }
    }

    /// Saturating multiplication: the product of the values, truncated toward
    /// zero at the sixteenth fractional bit.
    pub open spec fn spec_times(self, other: Fixed) -> Fixed {
        Fixed { bits: sat64(tdiv(self.bits * other.bits, SCALE as int)) as i64 }
    }

    pub fn times(self, other: Fixed) -> (r: Fixed)
        ensures
            r == self.spec_times(other),
    {
        proof {
            lemma_i64_product_fits(self.bits as int, other.bits as int);
        }
        let wide: i128 = (self.bits as i128) * (other.bits as i128);
        let shifted: i128 = wide / 65536;
        Fixed { bits: clamp_to_i64(shifted) }
    }

    /// Saturating division: the quotient of the values, truncated toward zero
    /// at the sixteenth fractional bit. The divisor must not be zero.
    pub open spec fn spec_divide(self, other: Fixed) -> Fixed {
        Fixed { bits: sat64(tdiv(self.bits * SCALE, other.bits as int)) as i64 }
    }

    pub fn divide(self, other: Fixed) -> (r: Fixed)
        requires
            other.bits != 0,
        ensures
            r == self.spec_divide(other),
    {
        let negative: bool = (self.bits < 0) != (other.bits < 0);
        let mag_num: u128 = (abs_to_u64(self.bits) as u128) * 65536;
        let mag_den: u128 = abs_to_u64(other.bits) as u128;
        let quot: u128 = mag_num / mag_den;
        proof {
            vstd::arithmetic::div_mod::lemma_div_nonincreasing(mag_num as int, mag_den as int);
            assert(quot as int == abs_int(self.bits * SCALE) / abs_int(other.bits as int));
        }
        let signed: i128 = if negative {
            -(quot as i128)
        } else {
            quot as i128
        };
        Fixed { bits: clamp_to_i64(signed) }
    }

    /// The scalar raised to a nonnegative integer power, by repeated
    /// saturating multiplication.
    pub open spec fn spec_powi(self, e: nat) -> Fixed
        decreases e,
    {
        if e == 0 {
            Fixed::spec_one()
        } else {
            self.spec_powi((e - 1) as nat).spec_times(self)
        }
    }

    pub fn powi(self, e: u32) -> (r: Fixed)
        ensures
            r == self.spec_powi(e as nat),
    {
        let mut acc = Fixed::one();
        let mut i: u32 = 0;
        while i < e
            invariant
                i <= e,
                acc == self.spec_powi(i as nat),
            decreases e - i,
        {
            acc = acc.times(self);
            i = i + 1;
        }
        acc
    }

    /// The square root of a nonnegative scalar, rounded down at the sixteenth
    /// fractional bit.
    pub open spec fn spec_sqrt(self) -> Fixed {
        Fixed { bits: isqrt_spec((self.bits * SCALE) as nat) as i64 }
    }

    pub fn sqrt(self) -> (r: Fixed)
        requires
            self.bits >= 0,
        ensures
            r == self.spec_sqrt(),
            r.bits >= 0,
    {
        let n: u128 = (self.bits as u128) * 65536;
        let root: u128 = isqrt_u128(n);
        proof {
            assert(root < 0x100_0000_0000) by (nonlinear_arith)
                requires
                    root * root <= n as nat,
                    n < 0x1_0000_0000_0000_0000_0000u128,
            ;
        }
        Fixed { bits: root as i64 }
    }
}

/// Division by a positive scalar keeps the dividend's sign, or yields zero.
pub proof fn lemma_divide_sign(a: Fixed, b: Fixed)
    requires
        b.bits > 0,
    ensures
        a.bits >= 0 ==> a.spec_divide(b).bits >= 0,
        a.bits <= 0 ==> a.spec_divide(b).bits <= 0,
{
    vstd::arithmetic::div_mod::lemma_div_pos_is_pos(
        abs_int(a.bits * SCALE),
        abs_int(b.bits as int),
    );
}

/// The product of two `i64` values fits in an `i128`.
proof fn lemma_i64_product_fits(a: int, b: int)
    by (nonlinear_arith)
    requires
        i64::MIN <= a <= i64::MAX,
        i64::MIN <= b <= i64::MAX,
    ensures
        i128::MIN < a * b < i128::MAX,
{
}

/// The integer square root of a `u128`, by bisection.
pub(crate) fn isqrt_u128(n: u128) -> (r: u128)
    ensures
        r as nat == isqrt_spec(n as nat),
        r * r <= n,
{
    let mut lo: u128 = 0;
    let mut hi: u128 = 0x1_0000_0000_0000_0000u128;
    proof {
        assert(hi * hi > n) by (nonlinear_arith)
            requires
                hi == 0x1_0000_0000_0000_0000u128,
                n <= u128::MAX,
        ;
    }
    while lo + 1 < hi
        invariant
            lo < hi,
            hi <= 0x1_0000_0000_0000_0000u128,
            lo * lo <= n,
            hi * hi > n,
        decreases hi - lo,
    {
        let mid: u128 = lo + (hi - lo) / 2;
        proof {
            assert(mid * mid < u128::MAX) by (nonlinear_arith)
                requires
                    mid < 0x1_0000_0000_0000_0000u128,
            ;
        }
        if mid * mid <= n {
            lo = mid;
        } else {
            hi = mid;
        }
    }
    proof {
        lemma_isqrt_unique(n as nat, lo as nat);
    }
    lo
}

} // verus!
