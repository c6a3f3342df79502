//! World-space points, directions, and rays over fixed-point scalars.

use vstd::prelude::*;
use crate::fixed::{abs_int, isqrt_spec, isqrt_u128, lemma_isqrt_spec_bounds, sat64, tdiv, Fixed, SCALE};

verus! {

/// A point or direction in world space.
#[derive(Clone, Copy, Debug, PartialEq, Eq, Structural)]
#[verifier::ext_equal]
pub struct Vector3 {
    pub x: Fixed,
    pub y: Fixed,
    pub z: Fixed,
}

/// A ray: an origin point and a direction.
#[derive(Clone, Copy, Debug, PartialEq, Eq, Structural)]
#[verifier::ext_equal]
pub struct Ray {
    pub origin: Vector3,
    pub direction: Vector3,
}

impl Vector3 {
    pub open spec fn spec_zero() -> Vector3 {
        Vector3 { x: Fixed::spec_zero(), y: Fixed::spec_zero(), z: Fixed::spec_zero() }
    }

    pub fn zero() -> (r: Vector3)
        ensures
            r == Vector3::spec_zero(),
    {
        Vector3 { x: Fixed::zero(), y: Fixed::zero(), z: Fixed::zero() }
    }

    /// Componentwise saturating addition.
    pub open spec fn spec_plus(self, other: Vector3) -> Vector3 {
        Vector3 {
            x: self.x.spec_plus(other.x),
            y: self.y.spec_plus(other.y),
            z: self.z.spec_plus(other.z),
        }
    }

    pub fn plus(self, other: Vector3) -> (r: Vector3)
        ensures
            r == self.spec_plus(other),
    {
        Vector3 { x: self.x.plus(other.x), y: self.y.plus(other.y), z: self.z.plus(other.z) }
    }

    /// Componentwise saturating subtraction.
    pub open spec fn spec_minus(self, other: Vector3) -> Vector3 {
        Vector3 {
            x: self.x.spec_minus(other.x),
            y: self.y.spec_minus(other.y),
            z: self.z.spec_minus(other.z),
        }
    }

    pub fn minus(self, other: Vector3) -> (r: Vector3)
        ensures
            r == self.spec_minus(other),
    {
        Vector3 { x: self.x.minus(other.x), y: self.y.minus(other.y), z: self.z.minus(other.z) }
    }

    /// Componentwise saturating negation.
    pub open spec fn spec_neg(self) -> Vector3 {
        Vector3 { x: self.x.spec_neg(), y: self.y.spec_neg(), z: self.z.spec_neg() }
    }

    pub fn neg(self) -> (r: Vector3)
        ensures
            r == self.spec_neg(),
    {
        Vector3 { x: self.x.neg(), y: self.y.neg(), z: self.z.neg() }
    }

    /// Scaling by a scalar, componentwise and saturating.
    pub open spec fn spec_scale(self, f: Fixed) -> Vector3 {
        Vector3 { x: self.x.spec_times(f), y: self.y.spec_times(f), z: self.z.spec_times(f) }
    }

    pub fn scale(self, f: Fixed) -> (r: Vector3)
        ensures
            r == self.spec_scale(f),
    {
        Vector3 { x: self.x.times(f), y: self.y.times(f), z: self.z.times(f) }
    }

    /// Componentwise division by a nonzero scalar.
    pub open spec fn spec_divide_scalar(self, f: Fixed) -> Vector3 {
        Vector3 {
            x: self.x.spec_divide(f),
            y: self.y.spec_divide(f),
            z: self.z.spec_divide(f),
        }
    }

    pub fn divide_scalar(self, f: Fixed) -> (r: Vector3)
        requires
            f.bits != 0,
        ensures
            r == self.spec_divide_scalar(f),
    {
        Vector3 { x: self.x.divide(f), y: self.y.divide(f), z: self.z.divide(f) }
    }

    /// The dot product, accumulated with saturating arithmetic.
    pub open spec fn spec_dot(self, other: Vector3) -> Fixed {
        self.x.spec_times(other.x).spec_plus(self.y.spec_times(other.y)).spec_plus(
            self.z.spec_times(other.z),
        )
    }

    pub fn dot(self, other: Vector3) -> (r: Fixed)
        ensures
            r == self.spec_dot(other),
    {
        self.x.times(other.x).plus(self.y.times(other.y)).plus(self.z.times(other.z))
    }

    /// The squared length of the vector in raw bit units: exact, before any
    /// rescaling or truncation.
    pub open spec fn spec_norm_squared_bits(self) -> int {
        self.x.bits * self.x.bits + self.y.bits * self.y.bits + self.z.bits * self.z.bits
    }

    /// The length of the vector, rounded down at the sixteenth fractional bit
    /// and saturated at the greatest representable scalar.
    pub open spec fn spec_magnitude(self) -> Fixed {
        Fixed { bits: sat64(isqrt_spec(self.spec_norm_squared_bits() as nat) as int) as i64 }
    }

    pub fn magnitude(self) -> (r: Fixed)
        ensures
            r == self.spec_magnitude(),
            r.bits >= 0,
    {
        proof {
            lemma_square_fits(self.x.bits as int);
            lemma_square_fits(self.y.bits as int);
            lemma_square_fits(self.z.bits as int);
        }
        let xx: i128 = (self.x.bits as i128) * (self.x.bits as i128);
        let yy: i128 = (self.y.bits as i128) * (self.y.bits as i128);
        let zz: i128 = (self.z.bits as i128) * (self.z.bits as i128);
        let total: u128 = xx as u128 + yy as u128 + zz as u128;
        let root: u128 = isqrt_u128(total);
        if root > i64::MAX as u128 {
            Fixed { bits: i64::MAX }
        } else {
            Fixed { bits: root as i64 }
        }
    }

    /// The vector rescaled to length one, rounded componentwise toward zero;
    /// the zero vector (which has no direction) stays zero.
    pub open spec fn spec_normalized(self) -> Vector3 {
        let m = self.spec_magnitude();
        if m.bits == 0 {
            Vector3::spec_zero()
        } else {
            Vector3 {
                x: self.x.spec_divide(m),
                y: self.y.spec_divide(m),
                z: self.z.spec_divide(m),
            }
        }
    }

    pub fn normalized(self) -> (r: Vector3)
        ensures
            r == self.spec_normalized(),
    {
        let m = self.magnitude();
        if m.bits == 0 {
            Vector3::zero()
        } else {
            Vector3 { x: self.x.divide(m), y: self.y.divide(m), z: self.z.divide(m) }
        }
    }
}

/// Rescaling a vector to unit length never flips a component: each normalized
/// component is zero or keeps the sign of the component it came from.
pub proof fn lemma_normalized_preserves_signs(v: Vector3)
    ensures
        v.x.bits >= 0 ==> v.spec_normalized().x.bits >= 0,
        v.x.bits <= 0 ==> v.spec_normalized().x.bits <= 0,
        v.y.bits >= 0 ==> v.spec_normalized().y.bits >= 0,
        v.y.bits <= 0 ==> v.spec_normalized().y.bits <= 0,
        v.z.bits >= 0 ==> v.spec_normalized().z.bits >= 0,
        v.z.bits <= 0 ==> v.spec_normalized().z.bits <= 0,
{
    let m = v.spec_magnitude();
    if m.bits != 0 {
        crate::fixed::lemma_divide_sign(v.x, m);
        crate::fixed::lemma_divide_sign(v.y, m);
        crate::fixed::lemma_divide_sign(v.z, m);
    }
}

/// One component of a normalization: for `|vb| <= m` the quotient
/// `|vb| * SCALE / m` stays within `[0, SCALE]`, it is the magnitude of the
/// truncating division that `spec_divide` performs, and its square times
/// `m * m` tracks `(vb * SCALE)^2` to within `(2 * SCALE + 1) * m * m`.
proof fn lemma_divide_component(vb: int, m: int)
    requires
        m >= SCALE,
        abs_int(vb) <= m,
    ensures
        0 <= abs_int(vb) * SCALE / m <= SCALE,
        abs_int(tdiv(vb * SCALE, m)) == abs_int(vb) * SCALE / m,
        (abs_int(vb) * SCALE / m) * (abs_int(vb) * SCALE / m) * (m * m) <= (abs_int(vb) * SCALE) * (
        abs_int(vb) * SCALE),
        (abs_int(vb) * SCALE / m) * (abs_int(vb) * SCALE / m) * (m * m) + (2 * SCALE + 1) * (m * m)
            >= (abs_int(vb) * SCALE) * (abs_int(vb) * SCALE),
{
    let a = abs_int(vb) * SCALE;
    let q = a / m;
    let r = a % m;
    vstd::arithmetic::div_mod::lemma_fundamental_div_mod(a, m);
    assert(a == m * q + r);
    assert(0 <= r < m);
    assert(0 <= a) by (nonlinear_arith)
        requires
            a == abs_int(vb) * SCALE,
            abs_int(vb) >= 0,
    ;
    assert(q >= 0) by (nonlinear_arith)
        requires
            a == m * q + r,
            0 <= r < m,
            a >= 0,
            m > 0,
    ;
    assert(a <= m * SCALE) by (nonlinear_arith)
        requires
            a == abs_int(vb) * SCALE,
            abs_int(vb) <= m,
    ;
    assert(q <= SCALE) by (nonlinear_arith)
        requires
            a == m * q + r,
            0 <= r,
            a <= m * SCALE,
            m > 0,
    ;
    assert(a * a == q * q * (m * m) + 2 * q * m * r + r * r) by (nonlinear_arith)
        requires
            a == m * q + r,
    ;
    assert(2 * q * m * r + r * r >= 0) by (nonlinear_arith)
        requires
            q >= 0,
            m > 0,
            r >= 0,
    ;
    assert(2 * q * m * r + r * r <= (2 * SCALE + 1) * (m * m)) by (nonlinear_arith)
        requires
            0 <= r < m,
            0 <= q <= SCALE,
            m > 0,
    ;
    if vb >= 0 {
        assert(vb * SCALE >= 0) by (nonlinear_arith)
            requires
                vb >= 0,
        ;
        assert(abs_int(vb * SCALE) == a);
    } else {
        assert(vb * SCALE < 0) by (nonlinear_arith)
            requires
                vb < 0,
        ;
        assert(abs_int(vb * SCALE) == a) by (nonlinear_arith)
            requires
                vb < 0,
                vb * SCALE < 0,
                a == abs_int(vb) * SCALE,
                abs_int(vb) == -vb,
                abs_int(vb * SCALE) == -(vb * SCALE),
        ;
    }
}

/// A vector at least one unit long normalizes to unit length, up to the
/// truncation of its components: the squared bit-norm of the normalized
/// vector differs from one squared (`SCALE * SCALE`) by at most `2^19`, about
/// one part in eight thousand.
pub proof fn lemma_normalized_unit_length(v: Vector3)
    requires
        abs_int(v.x.bits as int) <= 0x2000_0000_0000_0000,
        abs_int(v.y.bits as int) <= 0x2000_0000_0000_0000,
        abs_int(v.z.bits as int) <= 0x2000_0000_0000_0000,
        v.spec_magnitude().bits >= SCALE,
    ensures
        abs_int(v.spec_normalized().spec_norm_squared_bits() - SCALE * SCALE) <= 0x8_0000,
{
    let b61 = 0x2000_0000_0000_0000int;
    let xb = v.x.bits as int;
    let yb = v.y.bits as int;
    let zb = v.z.bits as int;
    let ss = v.spec_norm_squared_bits();
    assert(0 <= xb * xb <= b61 * b61) by (nonlinear_arith)
        requires
            abs_int(xb) <= b61,
    ;
    assert(0 <= yb * yb <= b61 * b61) by (nonlinear_arith)
        requires
            abs_int(yb) <= b61,
    ;
    assert(0 <= zb * zb <= b61 * b61) by (nonlinear_arith)
        requires
            abs_int(zb) <= b61,
    ;
    let m = isqrt_spec(ss as nat) as int;
    lemma_isqrt_spec_bounds(ss as nat);
    assert(m * m <= ss);
    assert((m + 1) * (m + 1) > ss);
    assert(m <= 2 * b61) by (nonlinear_arith)
        requires
            m >= 0,
            m * m <= ss,
            ss <= 3 * (b61 * b61),
            b61 == 0x2000_0000_0000_0000int,
    ;
    assert(v.spec_magnitude().bits == m);
    assert(m >= SCALE);
    // Each component is no longer than the whole vector.
    assert(abs_int(xb) <= m) by (nonlinear_arith)
        requires
            xb * xb <= ss,
            ss < (m + 1) * (m + 1),
            m >= 0,
    ;
    assert(abs_int(yb) <= m) by (nonlinear_arith)
        requires
            yb * yb <= ss,
            ss < (m + 1) * (m + 1),
            m >= 0,
    ;
    assert(abs_int(zb) <= m) by (nonlinear_arith)
        requires
            zb * zb <= ss,
            ss < (m + 1) * (m + 1),
            m >= 0,
    ;
    lemma_divide_component(xb, m);
    lemma_divide_component(yb, m);
    lemma_divide_component(zb, m);
    let qx = abs_int(xb) * SCALE / m;
    let qy = abs_int(yb) * SCALE / m;
    let qz = abs_int(zb) * SCALE / m;
    let n = v.spec_normalized();
    assert(n.x.bits == sat64(tdiv(xb * SCALE, m)));
    assert(abs_int(tdiv(xb * SCALE, m)) <= SCALE);
    assert(n.x.bits == tdiv(xb * SCALE, m));
    assert(n.y.bits == tdiv(yb * SCALE, m));
    assert(n.z.bits == tdiv(zb * SCALE, m));
    let nx = n.x.bits as int;
    let ny = n.y.bits as int;
    let nz = n.z.bits as int;
    assert(nx * nx == qx * qx) by (nonlinear_arith)
        requires
            abs_int(nx) == qx,
    ;
    assert(ny * ny == qy * qy) by (nonlinear_arith)
        requires
            abs_int(ny) == qy,
    ;
    assert(nz * nz == qz * qz) by (nonlinear_arith)
        requires
            abs_int(nz) == qz,
    ;
    // The exact squared numerators sum to SCALE^2 times the squared norm.
    assert((abs_int(xb) * SCALE) * (abs_int(xb) * SCALE) == (SCALE * SCALE) * (xb * xb))
        by (nonlinear_arith);
    assert((abs_int(yb) * SCALE) * (abs_int(yb) * SCALE) == (SCALE * SCALE) * (yb * yb))
        by (nonlinear_arith);
    assert((abs_int(zb) * SCALE) * (abs_int(zb) * SCALE) == (SCALE * SCALE) * (zb * zb))
        by (nonlinear_arith);
    let sq = qx * qx + qy * qy + qz * qz;
    assert(sq * (m * m) <= (SCALE * SCALE) * ss) by (nonlinear_arith)
        requires
            sq == qx * qx + qy * qy + qz * qz,
            qx * qx * (m * m) <= (SCALE * SCALE) * (xb * xb),
            qy * qy * (m * m) <= (SCALE * SCALE) * (yb * yb),
            qz * qz * (m * m) <= (SCALE * SCALE) * (zb * zb),
            ss == xb * xb + yb * yb + zb * zb,
    ;
    assert(sq * (m * m) + 3 * ((2 * SCALE + 1) * (m * m)) >= (SCALE * SCALE) * ss)
        by (nonlinear_arith)
        requires
            sq == qx * qx + qy * qy + qz * qz,
            qx * qx * (m * m) + (2 * SCALE + 1) * (m * m) >= (SCALE * SCALE) * (xb * xb),
            qy * qy * (m * m) + (2 * SCALE + 1) * (m * m) >= (SCALE * SCALE) * (yb * yb),
            qz * qz * (m * m) + (2 * SCALE + 1) * (m * m) >= (SCALE * SCALE) * (zb * zb),
            ss == xb * xb + yb * yb + zb * zb,
    ;
    // Bound the squared norm of the vector by the root's sandwich.
    assert(ss <= m * m + 2 * m) by (nonlinear_arith)
        requires
            ss < (m + 1) * (m + 1),
    ;
    // Upper bound: sq <= SCALE^2 + 2^19.
    assert(sq * (m * m) <= (SCALE * SCALE + 0x8_0000) * (m * m)) by (nonlinear_arith)
        requires
            sq * (m * m) <= (SCALE * SCALE) * ss,
            ss <= m * m + 2 * m,
            m >= SCALE,
            SCALE == 65536,
    ;
    assert(sq <= SCALE * SCALE + 0x8_0000) by (nonlinear_arith)
        requires
            sq * (m * m) <= (SCALE * SCALE + 0x8_0000) * (m * m),
            m > 0,
    ;
    // Lower bound: sq >= SCALE^2 - 2^19.
    assert(sq * (m * m) >= (SCALE * SCALE - 0x8_0000) * (m * m)) by (nonlinear_arith)
        requires
            sq * (m * m) + 3 * ((2 * SCALE + 1) * (m * m)) >= (SCALE * SCALE) * ss,
            ss >= m * m,
            m > 0,
            SCALE == 65536,
    ;
    assert(sq >= SCALE * SCALE - 0x8_0000) by (nonlinear_arith)
        requires
            sq * (m * m) >= (SCALE * SCALE - 0x8_0000) * (m * m),
            m > 0,
    ;
    assert(n.spec_norm_squared_bits() == sq);
}

/// The square of an `i64` is nonnegative and fits in an `i128`.
proof fn lemma_square_fits(a: int)
    by (nonlinear_arith)
    requires
        i64::MIN <= a <= i64::MAX,
    ensures
        0 <= a * a,
        a * a <= 0x4000_0000_0000_0000_0000_0000_0000_0000,
{
}

} // verus!
