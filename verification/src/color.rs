//! An additive and multiplicative radiance/reflectance value.

use vstd::prelude::*;
use crate::fixed::{sat64, tdiv, Fixed, SCALE};

verus! {

/// A color: alpha plus red, green, blue, each an unbounded fixed-point
/// channel. Channels may leave `[0, 1]` during accumulation; [`Color::clamped`]
/// projects them back.
#[derive(Clone, Copy, Debug, PartialEq, Eq, Structural)]
#[verifier::ext_equal]
pub struct Color {
    pub a: Fixed,
    pub r: Fixed,
    pub g: Fixed,
    pub b: Fixed,
}

/// The channel value for an 8-bit component: `c / 255`, rounded up at the
/// sixteenth fractional bit. Rounding up makes the two 8-bit conversions
/// mutually inverse: the truncating conversion back to 8 bits returns `c`
/// exactly (`lemma_channel_u8_round_trip`).
pub open spec fn spec_channel_from_u8(c: u8) -> Fixed {
    Fixed { bits: ((c * SCALE + 254) / 255) as i64 }
}

fn channel_from_u8(c: u8) -> (r: Fixed)
    ensures
        r == spec_channel_from_u8(c),
{
    Fixed { bits: ((c as i64) * 65536 + 254) / 255 }
}

/// The 8-bit component for a channel: the channel value times 255, truncated
/// toward zero and saturated into `0 ..= 255`.
pub open spec fn spec_channel_to_u8(x: Fixed) -> u8 {
    let t = tdiv(x.bits * 255, SCALE as int);
    if t < 0 {
        0
    } else if t > 255 {
        255
    } else {
        t as u8
    }
}

fn channel_to_u8(x: Fixed) -> (r: u8)
    ensures
        r == spec_channel_to_u8(x),
{
    let wide: i128 = (x.bits as i128) * 255;
    let t: i128 = wide / 65536;
    if t < 0 {
        0
    } else if t > 255 {
        255
    } else {
        t as u8
    }
}

impl Color {
    pub fn new(a: Fixed, r: Fixed, g: Fixed, b: Fixed) -> (c: Color)
        ensures
            c.a == a && c.r == r && c.g == g && c.b == b,
    {
        Color { a, r, g, b }
    }

    /// An opaque color: alpha one, the given red, green and blue.
    pub fn from_rgb(r: Fixed, g: Fixed, b: Fixed) -> (c: Color)
        ensures
            c.a == Fixed::spec_one() && c.r == r && c.g == g && c.b == b,
    {
        Color::new(Fixed::one(), r, g, b)
    }

    pub fn from_argb(a: Fixed, r: Fixed, g: Fixed, b: Fixed) -> (c: Color)
        ensures
            c.a == a && c.r == r && c.g == g && c.b == b,
    {
        Color::new(a, r, g, b)
    }

    /// An opaque color from 8-bit components scaled into `[0, 1]`.
    pub fn from_rgb_u8s(r: u8, g: u8, b: u8) -> (c: Color)
        ensures
            c.a == Fixed::spec_one(),
            c.r == spec_channel_from_u8(r),
            c.g == spec_channel_from_u8(g),
            c.b == spec_channel_from_u8(b),
    {
        Color::from_rgb(channel_from_u8(r), channel_from_u8(g), channel_from_u8(b))
    }

    /// A color from 8-bit components scaled into `[0, 1]`, alpha included.
    pub fn from_argb_u8s(a: u8, r: u8, g: u8, b: u8) -> (c: Color)
        ensures
            c.a == spec_channel_from_u8(a),
            c.r == spec_channel_from_u8(r),
            c.g == spec_channel_from_u8(g),
            c.b == spec_channel_from_u8(b),
    {
        Color::from_argb(
            channel_from_u8(a),
            channel_from_u8(r),
            channel_from_u8(g),
            channel_from_u8(b),
        )
    }

    /// The color as saturated 8-bit components, alpha first.
    pub fn as_argb_u8s(&self) -> (t: (u8, u8, u8, u8))
        ensures
            t.0 == spec_channel_to_u8(self.a),
            t.1 == spec_channel_to_u8(self.r),
            t.2 == spec_channel_to_u8(self.g),
            t.3 == spec_channel_to_u8(self.b),
    {
        (
            channel_to_u8(self.a),
            channel_to_u8(self.r),
            channel_to_u8(self.g),
            channel_to_u8(self.b),
        )
    }

    /// The color as saturated 8-bit components, alpha dropped.
    pub fn as_rgb_u8s(&self) -> (t: (u8, u8, u8))
        ensures
            t.0 == spec_channel_to_u8(self.r),
            t.1 == spec_channel_to_u8(self.g),
            t.2 == spec_channel_to_u8(self.b),
    {
        (channel_to_u8(self.r), channel_to_u8(self.g), channel_to_u8(self.b))
    }

    /// Componentwise saturating addition.
    pub open spec fn spec_plus(self, other: Color) -> Color {
        Color {
            a: self.a.spec_plus(other.a),
            r: self.r.spec_plus(other.r),
            g: self.g.spec_plus(other.g),
            b: self.b.spec_plus(other.b),
        }
    }

    pub fn plus(self, other: Color) -> (c: Color)
        ensures
            c == self.spec_plus(other),
    {
        Color {
            a: self.a.plus(other.a),
            r: self.r.plus(other.r),
            g: self.g.plus(other.g),
            b: self.b.plus(other.b),
        }
    }

    /// Componentwise saturating multiplication: masking one color by another.
    pub open spec fn spec_times(self, other: Color) -> Color {
        Color {
            a: self.a.spec_times(other.a),
            r: self.r.spec_times(other.r),
            g: self.g.spec_times(other.g),
            b: self.b.spec_times(other.b),
        }
    }

    pub fn times(self, other: Color) -> (c: Color)
        ensures
            c == self.spec_times(other),
    {
        Color {
            a: self.a.times(other.a),
            r: self.r.times(other.r),
            g: self.g.times(other.g),
            b: self.b.times(other.b),
        }
    }

    /// Uniform scaling of all four channels by a scalar.
    pub open spec fn spec_scale(self, f: Fixed) -> Color {
        Color {
            a: self.a.spec_times(f),
            r: self.r.spec_times(f),
            g: self.g.spec_times(f),
            b: self.b.spec_times(f),
        }
    }

    pub fn scale(self, f: Fixed) -> (c: Color)
        ensures
            c == self.spec_scale(f),
    {
        Color { a: self.a.times(f), r: self.r.times(f), g: self.g.times(f), b: self.b.times(f) }
    }

    /// Uniform division of all four channels by a nonzero scalar.
    pub open spec fn spec_divide_scalar(self, f: Fixed) -> Color {
        Color {
            a: self.a.spec_divide(f),
            r: self.r.spec_divide(f),
            g: self.g.spec_divide(f),
            b: self.b.spec_divide(f),
        }
    }

    pub fn divide_scalar(self, f: Fixed) -> (c: Color)
        requires
            f.bits != 0,
        ensures
            c == self.spec_divide_scalar(f),
    {
        Color {
            a: self.a.divide(f),
            r: self.r.divide(f),
            g: self.g.divide(f),
            b: self.b.divide(f),
        }
    }

    pub open spec fn spec_multiply_colors(c1: Color, c2: Color) -> Color {
        c1.spec_times(c2)
    }

    /// The componentwise product of two colors.
    pub fn multiply_colors(color1: &Color, color2: &Color) -> (c: Color)
        ensures
            c == Color::spec_multiply_colors(*color1, *color2),
    {
        color1.times(*color2)
    }

    /// The product of the first `n` colors of `s`, folded left from white.
    pub open spec fn spec_multiply_prefix(s: Seq<Color>, n: int) -> Color
        decreases n,
    {
        if n <= 0 {
            Color {
                a: Fixed::spec_one(),
                r: Fixed::spec_one(),
                g: Fixed::spec_one(),
                b: Fixed::spec_one(),
            }
        } else {
            Color::spec_multiply_prefix(s, n - 1).spec_times(s[n - 1])
        }
    }

    /// The componentwise product of all the colors, starting from white.
    pub fn multiply_many_colors(colors: &Vec<Color>) -> (c: Color)
        ensures
            c == Color::spec_multiply_prefix(colors@, colors@.len() as int),
    {
        let one = Fixed::one();
        let mut acc = Color::from_rgb(one, one, one);
        let mut i: usize = 0;
        while i < colors.len()
            invariant
                i <= colors@.len(),
                acc == Color::spec_multiply_prefix(colors@, i as int),
            decreases colors@.len() - i,
        {
            acc = acc.times(colors[i]);
            i = i + 1;
        }
        acc
    }

    /// The weighted sum of the first `n` color/weight pairs.
    pub open spec fn spec_mix_prefix(colors: Seq<Color>, weights: Seq<Fixed>, n: int) -> Color
        decreases n,
    {
        if n <= 0 {
            Color {
                a: Fixed::spec_zero(),
                r: Fixed::spec_zero(),
                g: Fixed::spec_zero(),
                b: Fixed::spec_zero(),
            }
        } else {
            Color::spec_mix_prefix(colors, weights, n - 1).spec_plus(
                colors[n - 1].spec_scale(weights[n - 1]),
            )
        }
    }

    /// The sum of each color scaled by its paired weight; unpaired entries of
    /// the longer list are ignored.
    pub fn mix_colors(colors: &Vec<Color>, weights: &Vec<Fixed>) -> (c: Color)
        ensures
            c == Color::spec_mix_prefix(
                colors@,
                weights@,
                vstd::math::min(colors@.len() as int, weights@.len() as int),
            ),
    {
        let count: usize = if colors.len() < weights.len() {
            colors.len()
        } else {
            weights.len()
        };
        let mut acc = Color::from_argb(
            Fixed::zero(),
            Fixed::zero(),
            Fixed::zero(),
            Fixed::zero(),
        );
        let mut i: usize = 0;
        while i < count
            invariant
                i <= count,
                count == vstd::math::min(colors@.len() as int, weights@.len() as int),
                acc == Color::spec_mix_prefix(colors@, weights@, i as int),
            decreases count - i,
        {
            acc = acc.plus(colors[i].scale(weights[i]));
            i = i + 1;
        }
        acc
    }

    /// The sum of the first `n` colors of `s`.
    pub open spec fn spec_sum_prefix(s: Seq<Color>, n: int) -> Color
        decreases n,
    {
        if n <= 0 {
            Color {
                a: Fixed::spec_zero(),
                r: Fixed::spec_zero(),
                g: Fixed::spec_zero(),
                b: Fixed::spec_zero(),
            }
        } else {
            Color::spec_sum_prefix(s, n - 1).spec_plus(s[n - 1])
        }
    }

    /// The sum of all the colors; an empty list sums to the transparent black
    /// additive identity.
    pub fn sum(colors: &Vec<Color>) -> (c: Color)
        ensures
            c == Color::spec_sum_prefix(colors@, colors@.len() as int),
    {
        let mut acc = Color::from_argb(
            Fixed::zero(),
            Fixed::zero(),
            Fixed::zero(),
            Fixed::zero(),
        );
        let mut i: usize = 0;
        while i < colors.len()
            invariant
                i <= colors@.len(),
                acc == Color::spec_sum_prefix(colors@, i as int),
            decreases colors@.len() - i,
        {
            acc = acc.plus(colors[i]);
            i = i + 1;
        }
        acc
    }

    /// Each channel clamped into `[0, 1]`.
    pub open spec fn spec_clamp_channel(x: Fixed) -> Fixed {
        if x.bits > SCALE {
            Fixed { bits: SCALE }
        } else if x.bits < 0 {
            Fixed { bits: 0 }
        } else {
            x
        }
    }

    pub open spec fn spec_clamped(self) -> Color {
        Color {
            a: Color::spec_clamp_channel(self.a),
            r: Color::spec_clamp_channel(self.r),
            g: Color::spec_clamp_channel(self.g),
            b: Color::spec_clamp_channel(self.b),
        }
    }

    pub fn clamped(&self) -> (c: Color)
        ensures
            c == self.spec_clamped(),
    {
        Color {
            a: clamp_channel(self.a),
            r: clamp_channel(self.r),
            g: clamp_channel(self.g),
            b: clamp_channel(self.b),
        }
    }
}

fn clamp_channel(x: Fixed) -> (r: Fixed)
    ensures
        r == Color::spec_clamp_channel(x),
{
    if x.bits > SCALE {
        Fixed { bits: SCALE }
    } else if x.bits < 0 {
        Fixed { bits: 0 }
    } else {
        x
    }
}

/// Color addition is commutative.
pub proof fn lemma_color_plus_commutative(c1: Color, c2: Color)
    ensures
        c1.spec_plus(c2) == c2.spec_plus(c1),
{
}

/// Color addition is associative as long as no partial sum saturates.
pub proof fn lemma_color_plus_associative(c1: Color, c2: Color, c3: Color)
    requires
        i64::MIN <= c1.a.bits + c2.a.bits <= i64::MAX,
        i64::MIN <= c2.a.bits + c3.a.bits <= i64::MAX,
        i64::MIN <= c1.a.bits + c2.a.bits + c3.a.bits <= i64::MAX,
        i64::MIN <= c1.r.bits + c2.r.bits <= i64::MAX,
        i64::MIN <= c2.r.bits + c3.r.bits <= i64::MAX,
        i64::MIN <= c1.r.bits + c2.r.bits + c3.r.bits <= i64::MAX,
        i64::MIN <= c1.g.bits + c2.g.bits <= i64::MAX,
        i64::MIN <= c2.g.bits + c3.g.bits <= i64::MAX,
        i64::MIN <= c1.g.bits + c2.g.bits + c3.g.bits <= i64::MAX,
        i64::MIN <= c1.b.bits + c2.b.bits <= i64::MAX,
        i64::MIN <= c2.b.bits + c3.b.bits <= i64::MAX,
        i64::MIN <= c1.b.bits + c2.b.bits + c3.b.bits <= i64::MAX,
    ensures
        c1.spec_plus(c2).spec_plus(c3) == c1.spec_plus(c2.spec_plus(c3)),
{
}

/// Converting an 8-bit component into a channel and back returns it
/// unchanged: scaling into `[0, 1]` loses nothing that the truncating
/// conversion back to 8 bits needs.
pub proof fn lemma_channel_u8_round_trip(c: u8)
    ensures
        spec_channel_to_u8(spec_channel_from_u8(c)) == c,
{
    let q = (c * SCALE + 254) / 255;
    vstd::arithmetic::div_mod::lemma_fundamental_div_mod(c * SCALE + 254, 255);
    assert(c * SCALE <= 255 * q);
    assert(255 * q <= c * SCALE + 254);
    assert(q >= 0);
    assert((q * 255) / (SCALE as int) == c);
    assert(tdiv(q * 255, SCALE as int) == c);
}

/// Transparent black is the additive identity on both sides.
pub proof fn lemma_color_plus_identity(c: Color)
    ensures
        c.spec_plus(Color::spec_sum_prefix(Seq::<Color>::empty(), 0)) == c,
        Color::spec_sum_prefix(Seq::<Color>::empty(), 0).spec_plus(c) == c,
{
}

} // verus!
