//! Fixed-point scalar arithmetic.
//!
//! Every scalar of the geometry pipeline (lengths, widths, angles in
//! radians, coordinates, colors) is an `Fx`: a signed 64-bit quantity in
//! units of `1 / FX_SCALE`. All operations clamp their result into
//! `[-FX_MAX, FX_MAX]`, so they are total and never overflow; the clamp
//! is part of each operation's contract.

use vstd::prelude::*;

verus! {

/// Number of fixed-point units per whole unit.
pub const FX_SCALE: i64 = 65536;

/// Largest representable magnitude, in fixed-point units.
pub const FX_MAX: i64 = 0x4000_0000_0000;

/// The circle constant pi, in fixed-point units.
pub const FX_PI: i64 = 205887;

/// Two pi, in fixed-point units.
pub const FX_TWO_PI: i64 = 411775;

/// Half pi, in fixed-point units.
pub const FX_HALF_PI: i64 = 102944;

/// A fixed-point scalar: `bits / FX_SCALE` is the value it stands for.
#[derive(Clone, Copy, Debug, PartialEq, Eq, Structural)]
pub struct Fx {
    pub bits: i64,
}

impl View for Fx {
    type V = int;

    open spec fn view(&self) -> int {
        self.bits as int
    }
}

/// The scalar whose fixed-point units are `v`; `v` must be in range.
pub open spec fn fxb(v: int) -> Fx {
    Fx { bits: v as i64 }
}

/// Clamp a mathematical result into the representable range.
pub open spec fn fx_clamp(x: int) -> int {
    if x > FX_MAX as int {
        FX_MAX as int
    } else if x < -(FX_MAX as int) {
        -(FX_MAX as int)
    } else {
        x
    }
}

/// Division truncating toward zero, as fixed-point scaling uses it.
pub open spec fn div_trunc(x: int, d: int) -> int
    recommends
        d > 0,
{
    if x >= 0 {
        x / d
    } else {
        -((-x) / d)
    }
}

pub open spec fn fx_add(a: int, b: int) -> int {
    fx_clamp(a + b)
}

pub open spec fn fx_sub(a: int, b: int) -> int {
    fx_clamp(a - b)
}

pub open spec fn fx_neg(a: int) -> int {
    fx_clamp(-a)
}

pub open spec fn fx_mul(a: int, b: int) -> int {
    fx_clamp(div_trunc(a * b, FX_SCALE as int))
}

pub open spec fn fx_mul_int(a: int, k: int) -> int {
    fx_clamp(a * k)
}

pub open spec fn fx_div_int(a: int, d: int) -> int
    recommends
        d > 0,
{
    fx_clamp(div_trunc(a, d))
}

pub open spec fn fx_mul_ratio(a: int, num: int, den: int) -> int
    recommends
        den > 0,
{
    fx_clamp(div_trunc(a * num, den))
}

/// The scalar standing for the integer `n`.
pub open spec fn spec_from_int(n: int) -> Fx {
    fxb(fx_clamp(n * FX_SCALE))
}

/// Radians for a whole number of degrees.
pub open spec fn spec_from_degrees(d: int) -> Fx {
    fxb(fx_clamp(div_trunc(d * FX_PI, 180)))
}

/// Radians for a scalar measured in degrees.
pub open spec fn spec_to_radians(a: int) -> Fx {
    fxb(fx_clamp(div_trunc(a * FX_PI, 180 * FX_SCALE)))
}

/// `a * b / d` in raw fixed-point units, truncated and clamped.
pub open spec fn fx_muldiv(a: int, b: int, d: int) -> int
    recommends
        d > 0,
{
    fx_clamp(div_trunc(a * b, d))
}

/// Fixed-point division `a / b`; division by zero yields zero, the
/// pipeline's graceful default for degenerate geometry.
pub open spec fn fx_div(a: int, b: int) -> int {
    if b == 0 {
        0
    } else if b > 0 {
        fx_clamp(div_trunc(a * FX_SCALE, b))
    } else {
        fx_clamp(div_trunc(a * FX_SCALE, -b) * -1)
    }
}

/// The product of two 64-bit quantities stays inside the wide range.
proof fn lemma_i64_product_range(a: int, b: int)
    requires
        -0x8000_0000_0000_0000 <= a <= 0x7FFF_FFFF_FFFF_FFFF,
        -0x8000_0000_0000_0000 <= b <= 0x7FFF_FFFF_FFFF_FFFF,
    ensures
        -0x4000_0000_0000_0000_0000_0000_0000_0000 < a * b,
        a * b <= 0x4000_0000_0000_0000_0000_0000_0000_0000,
{
    assert(-0x4000_0000_0000_0000_0000_0000_0000_0000 < a * b
        && a * b <= 0x4000_0000_0000_0000_0000_0000_0000_0000) by (nonlinear_arith)
        requires
            -0x8000_0000_0000_0000 <= a <= 0x7FFF_FFFF_FFFF_FFFF,
            -0x8000_0000_0000_0000 <= b <= 0x7FFF_FFFF_FFFF_FFFF,
    ;
}

/// Clamp into `[-1, 1]`, the range of a sine or cosine.
pub open spec fn one_clamp(x: int) -> int {
    if x > FX_SCALE as int {
        FX_SCALE as int
    } else if x < -(FX_SCALE as int) {
        -(FX_SCALE as int)
    } else {
        x
    }
}

/// The sine polynomial on the first quarter wave:
/// `x - x^3/6 + x^5/120`, clamped into `[-1, 1]`.
pub open spec fn spec_sin_quarter(x: int) -> int {
    let x2 = fx_mul(x, x);
    let x3 = fx_mul(x2, x);
    let x5 = fx_mul(x3, x2);
    one_clamp(x - fx_div_int(x3, 6) + fx_div_int(x5, 120))
}

/// Sine of an angle already reduced into `[0, 2*pi)`, folded onto the
/// first quarter wave by the usual symmetries.
pub open spec fn spec_sin_reduced(m: int) -> int {
    if m <= FX_HALF_PI as int {
        spec_sin_quarter(m)
    } else if m <= FX_PI as int {
        spec_sin_quarter(FX_PI as int - m)
    } else if m <= FX_PI as int + FX_HALF_PI as int {
        -spec_sin_quarter(m - FX_PI as int)
    } else {
        -spec_sin_quarter(FX_TWO_PI as int - m)
    }
}

/// Fixed-point sine: clamp, reduce modulo one turn, use oddness for
/// negative angles, then the quarter-wave polynomial.
pub open spec fn spec_fx_sin(x: int) -> int {
    let c = fx_clamp(x);
    if c >= 0 {
        spec_sin_reduced(c % (FX_TWO_PI as int))
    } else {
        -spec_sin_reduced((-c) % (FX_TWO_PI as int))
    }
}

/// Fixed-point cosine: the sine a quarter turn later.
pub open spec fn spec_fx_cos(x: int) -> int {
    spec_fx_sin(fx_add(x, FX_HALF_PI as int))
}

/// Clamp a wide intermediate result back into the scalar range.
fn clamp_wide(q: i128) -> (r: i64)
    ensures
        r as int == fx_clamp(q as int),
{
    if q > FX_MAX as i128 {
        FX_MAX
    } else if q < -(FX_MAX as i128) {
        -FX_MAX
    } else {
        q as i64
    }
}

/// The quarter-wave sine polynomial on `[0, pi/2]`.
fn sin_quarter(xb: i64) -> (r: i64)
    requires
        0 <= xb <= FX_HALF_PI,
    ensures
        r as int == spec_sin_quarter(xb as int),
        -FX_SCALE <= r <= FX_SCALE,
{
    let x = Fx { bits: xb };
    let x2 = x.mul(x);
    let x3 = x2.mul(x);
    let x5 = x3.mul(x2);
    let t3 = x3.div_int(6);
    let t5 = x5.div_int(120);
    let s: i128 = (xb as i128) - (t3.bits as i128) + (t5.bits as i128);
    if s > FX_SCALE as i128 {
        FX_SCALE
    } else if s < -(FX_SCALE as i128) {
        -FX_SCALE
    } else {
        s as i64
    }
}

/// Sine of an angle already reduced into `[0, 2*pi)`.
fn sin_reduced(m: i64) -> (r: i64)
    requires
        0 <= m < FX_TWO_PI,
    ensures
        r as int == spec_sin_reduced(m as int),
        -FX_SCALE <= r <= FX_SCALE,
{
    if m <= FX_HALF_PI {
        sin_quarter(m)
    } else if m <= FX_PI {
        sin_quarter(FX_PI - m)
    } else if m <= FX_PI + FX_HALF_PI {
        -sin_quarter(m - FX_PI)
    } else {
        -sin_quarter(FX_TWO_PI - m)
    }
}

/// Truncating division of a wide intermediate by a positive divisor.
fn div_trunc_wide(x: i128, d: u64) -> (q: i128)
    requires
        d >= 1,
        -0x4000_0000_0000_0000_0000_0000_0000_0000 < x,
    ensures
        q == div_trunc(x as int, d as int),
{
    if x >= 0 {
        ((x as u128) / (d as u128)) as i128
    } else {
        let m: u128 = (-x) as u128;
        -((m / (d as u128)) as i128)
    }
}

impl Fx {
    /// The scalar zero.
    pub fn zero() -> (r: Fx)
        ensures
            r@ == 0,
    {
        Fx { bits: 0 }
    }

    /// The scalar one.
    pub fn one() -> (r: Fx)
        ensures
            r@ == FX_SCALE as int,
    {
        Fx { bits: FX_SCALE }
    }

    /// A scalar straight from its fixed-point units.
    pub fn from_bits(bits: i64) -> (r: Fx)
        ensures
            r@ == bits as int,
    {
        Fx { bits }
    }

    /// The scalar standing for the integer `n`.
    pub fn from_int(n: i64) -> (r: Fx)
        ensures
            r@ == fx_clamp(n * FX_SCALE),
            r == spec_from_int(n as int),
    {
        proof {
            lemma_i64_product_range(n as int, FX_SCALE as int);
        }
        let wide: i128 = (n as i128) * (FX_SCALE as i128);
        Fx { bits: clamp_wide(wide) }
    }

    /// Radians for a whole number of degrees.
    pub fn from_degrees(d: i64) -> (r: Fx)
        ensures
            r == spec_from_degrees(d as int),
    {
        proof {
            lemma_i64_product_range(d as int, FX_PI as int);
        }
        let wide: i128 = (d as i128) * (FX_PI as i128);
        let q = div_trunc_wide(wide, 180u64);
        Fx { bits: clamp_wide(q) }
    }

    /// Reinterpret this scalar, measured in degrees, as radians.
    pub fn to_radians(self) -> (r: Fx)
        ensures
            r == spec_to_radians(self@),
    {
        proof {
            lemma_i64_product_range(self.bits as int, FX_PI as int);
        }
        let wide: i128 = (self.bits as i128) * (FX_PI as i128);
        let q = div_trunc_wide(wide, 180u64 * 65536u64);
        Fx { bits: clamp_wide(q) }
    }

    pub fn add(self, o: Fx) -> (r: Fx)
        ensures
            r@ == fx_add(self@, o@),
    {
        let wide: i128 = (self.bits as i128) + (o.bits as i128);
        Fx { bits: clamp_wide(wide) }
    }

    pub fn sub(self, o: Fx) -> (r: Fx)
        ensures
            r@ == fx_sub(self@, o@),
    {
        let wide: i128 = (self.bits as i128) - (o.bits as i128);
        Fx { bits: clamp_wide(wide) }
    }

    pub fn neg(self) -> (r: Fx)
        ensures
            r@ == fx_neg(self@),
    {
        let wide: i128 = -(self.bits as i128);
        Fx { bits: clamp_wide(wide) }
    }

    pub fn mul(self, o: Fx) -> (r: Fx)
        ensures
            r@ == fx_mul(self@, o@),
    {
        proof {
            lemma_i64_product_range(self.bits as int, o.bits as int);
        }
        let wide: i128 = (self.bits as i128) * (o.bits as i128);
        let q = div_trunc_wide(wide, FX_SCALE as u64);
        Fx { bits: clamp_wide(q) }
    }

    /// Multiply by a small integer.
    pub fn mul_int(self, k: i64) -> (r: Fx)
        ensures
            r@ == fx_mul_int(self@, k as int),
    {
        proof {
            lemma_i64_product_range(self.bits as int, k as int);
        }
        let wide: i128 = (self.bits as i128) * (k as i128);
        Fx { bits: clamp_wide(wide) }
    }

    /// Divide by a positive integer.
    pub fn div_int(self, d: i64) -> (r: Fx)
        requires
            d >= 1,
        ensures
            r@ == fx_div_int(self@, d as int),
    {
        let q = div_trunc_wide(self.bits as i128, d as u64);
        Fx { bits: clamp_wide(q) }
    }

    /// Scale by the exact rational `num / den`.
    pub fn mul_ratio(self, num: i64, den: i64) -> (r: Fx)
        requires
            den >= 1,
        ensures
            r@ == fx_mul_ratio(self@, num as int, den as int),
    {
        proof {
            lemma_i64_product_range(self.bits as int, num as int);
        }
        let wide: i128 = (self.bits as i128) * (num as i128);
        let q = div_trunc_wide(wide, den as u64);
        Fx { bits: clamp_wide(q) }
    }

    /// `self * b / d`, where `d` is a positive count of fixed-point
    /// units; the workhorse of vector normalization.
    pub fn mul_div_units(self, b: Fx, d: u64) -> (r: Fx)
        requires
            d >= 1,
        ensures
            r@ == fx_muldiv(self@, b@, d as int),
    {
        proof {
            lemma_i64_product_range(self.bits as int, b.bits as int);
        }
        let wide: i128 = (self.bits as i128) * (b.bits as i128);
        let q = div_trunc_wide(wide, d);
        Fx { bits: clamp_wide(q) }
    }

    /// The sine of this angle in radians.
    pub fn sin(self) -> (r: Fx)
        ensures
            r@ == spec_fx_sin(self@),
            -(FX_SCALE as int) <= r@ <= FX_SCALE as int,
    {
        let cb = if self.bits > FX_MAX {
            FX_MAX
        } else if self.bits < -FX_MAX {
            -FX_MAX
        } else {
            self.bits
        };
        if cb >= 0 {
            let m = ((cb as u64) % (FX_TWO_PI as u64)) as i64;
            Fx { bits: sin_reduced(m) }
        } else {
            let m = (((-cb) as u64) % (FX_TWO_PI as u64)) as i64;
            Fx { bits: -sin_reduced(m) }
        }
    }

    /// The cosine of this angle in radians.
    pub fn cos(self) -> (r: Fx)
        ensures
            r@ == spec_fx_cos(self@),
            -(FX_SCALE as int) <= r@ <= FX_SCALE as int,
    {
        self.add(Fx { bits: FX_HALF_PI }).sin()
    }

    /// Fixed-point division; division by zero yields zero.
    pub fn div(self, o: Fx) -> (r: Fx)
        ensures
            r@ == fx_div(self@, o@),
    {
        if o.bits == 0 {
            Fx { bits: 0 }
        } else {
            proof {
                lemma_i64_product_range(self.bits as int, FX_SCALE as int);
            }
            let wide: i128 = (self.bits as i128) * (FX_SCALE as i128);
            if o.bits > 0 {
                let q = div_trunc_wide(wide, o.bits as u64);
                Fx { bits: clamp_wide(q) }
            } else {
                let m: u64 = if o.bits == i64::MIN {
                    0x8000_0000_0000_0000u64
                } else {
                    (-o.bits) as u64
                };
                let q = div_trunc_wide(wide, m);
                let f = clamp_wide(q);
                assert(fx_clamp(div_trunc(wide as int, m as int)) * -1 == fx_clamp(
                    div_trunc(wide as int, m as int) * -1,
                ));
                Fx { bits: -f }
            }
        }
    }
}

} // verus!
