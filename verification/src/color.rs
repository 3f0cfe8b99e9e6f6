//! Four-component colors (red, green, blue and a weight channel) with
//! componentwise saturating fixed-point arithmetic.

use vstd::prelude::*;
use crate::fixed::{mul_div_spec, sat64, sat_add64, scale_mul_div, SCALE};

verus! {

/// A radiance sample: red, green, blue and a weight channel, each a
/// fixed-point scalar. The weight channel is carried through the same
/// componentwise arithmetic as the color channels and is never read
/// back by the integrator.
#[derive(Clone, Copy, Debug, PartialEq, Eq, Structural)]
pub struct Color(pub i64, pub i64, pub i64, pub i64);

/// Black with full weight: the color of truncated transport.
pub open spec fn black() -> Color {
    Color(0, 0, 0, SCALE)
}

/// The componentwise saturating sum of two colors.
pub open spec fn color_add_spec(a: Color, b: Color) -> Color {
    Color(
        sat64(a.0 + b.0) as i64,
        sat64(a.1 + b.1) as i64,
        sat64(a.2 + b.2) as i64,
        sat64(a.3 + b.3) as i64,
    )
}

/// The componentwise fixed-point product of two colors: each channel is
/// `(a * b) / SCALE`, so multiplying by 1.0 leaves a channel unchanged.
pub open spec fn color_mul_spec(a: Color, b: Color) -> Color {
    Color(
        mul_div_spec(a.0 as int, b.0 as int, SCALE as int) as i64,
        mul_div_spec(a.1 as int, b.1 as int, SCALE as int) as i64,
        mul_div_spec(a.2 as int, b.2 as int, SCALE as int) as i64,
        mul_div_spec(a.3 as int, b.3 as int, SCALE as int) as i64,
    )
}

/// The componentwise fixed-point quotient of a color by a scalar: each
/// channel is `(c * SCALE) / s`, so dividing by 1.0 leaves a channel
/// unchanged. Unspecified for `s == 0`.
pub open spec fn color_div_spec(c: Color, s: int) -> Color {
    Color(
        mul_div_spec(c.0 as int, SCALE as int, s) as i64,
        mul_div_spec(c.1 as int, SCALE as int, s) as i64,
        mul_div_spec(c.2 as int, SCALE as int, s) as i64,
        mul_div_spec(c.3 as int, SCALE as int, s) as i64,
    )
}

impl Color {
    /// Builds a color from its four channels.
    pub fn new(r: i64, g: i64, b: i64, a: i64) -> (c: Color)
        ensures
            c == Color(r, g, b, a),
    {
        Color(r, g, b, a)
    }

    /// The componentwise saturating sum `self + other`.
    pub fn plus(&self, other: &Color) -> (r: Color)
        ensures
            r == color_add_spec(*self, *other),
    {
        Color(
            sat_add64(self.0, other.0),
            sat_add64(self.1, other.1),
            sat_add64(self.2, other.2),
            sat_add64(self.3, other.3),
        )
    }

    /// The componentwise fixed-point product `self * other`.
    pub fn times(&self, other: &Color) -> (r: Color)
        ensures
            r == color_mul_spec(*self, *other),
    {
        Color(
            scale_mul_div(self.0, other.0, SCALE),
            scale_mul_div(self.1, other.1, SCALE),
            scale_mul_div(self.2, other.2, SCALE),
            scale_mul_div(self.3, other.3, SCALE),
        )
    }

    /// The componentwise fixed-point quotient `self / s`.
    pub fn divided_by(&self, s: i64) -> (r: Color)
        requires
            s != 0,
        ensures
            r == color_div_spec(*self, s as int),
    {
        Color(
            scale_mul_div(self.0, SCALE, s),
            scale_mul_div(self.1, SCALE, s),
            scale_mul_div(self.2, SCALE, s),
            scale_mul_div(self.3, SCALE, s),
        )
    }
}

} // verus!
