//! Fixed-point vectors and 4x4 transform matrices.
//!
//! Matrices are stored by columns, and `mul` composes them the usual
//! way: `a.mul(b)` applied to a point is `a` applied after `b`. Every
//! operation's contract is exact over the fixed-point spec functions;
//! normalization is pinned down through an integer square root.

use vstd::prelude::*;

use crate::fixed::{fx_add, fx_div, fx_mul, fx_muldiv, fx_neg, fx_sub, fxb, spec_fx_cos,
    spec_fx_sin, Fx, FX_SCALE};

verus! {

/// A two-component fixed-point vector (texture coordinates).
#[derive(Clone, Copy, Debug, PartialEq, Eq, Structural)]
pub struct Vec2 {
    pub x: Fx,
    pub y: Fx,
}

/// A three-component fixed-point vector: positions, headings, normals.
#[derive(Clone, Copy, Debug, PartialEq, Eq, Structural)]
pub struct Vec3 {
    pub x: Fx,
    pub y: Fx,
    pub z: Fx,
}

/// A four-component fixed-point vector: colors and homogeneous points.
#[derive(Clone, Copy, Debug, PartialEq, Eq, Structural)]
pub struct Vec4 {
    pub x: Fx,
    pub y: Fx,
    pub z: Fx,
    pub w: Fx,
}

/// A 4x4 fixed-point matrix, stored by columns.
#[derive(Clone, Copy, Debug, PartialEq, Eq, Structural)]
pub struct Mat4 {
    pub cx: Vec4,
    pub cy: Vec4,
    pub cz: Vec4,
    pub cw: Vec4,
}

pub open spec fn spec_v2(x: int, y: int) -> Vec2 {
    Vec2 { x: fxb(x), y: fxb(y) }
}

pub open spec fn spec_v3(x: int, y: int, z: int) -> Vec3 {
    Vec3 { x: fxb(x), y: fxb(y), z: fxb(z) }
}

pub open spec fn spec_v4(x: int, y: int, z: int, w: int) -> Vec4 {
    Vec4 { x: fxb(x), y: fxb(y), z: fxb(z), w: fxb(w) }
}

pub open spec fn spec_v3_add(a: Vec3, b: Vec3) -> Vec3 {
    spec_v3(fx_add(a.x@, b.x@), fx_add(a.y@, b.y@), fx_add(a.z@, b.z@))
}

pub open spec fn spec_v3_sub(a: Vec3, b: Vec3) -> Vec3 {
    spec_v3(fx_sub(a.x@, b.x@), fx_sub(a.y@, b.y@), fx_sub(a.z@, b.z@))
}

pub open spec fn spec_v3_neg(a: Vec3) -> Vec3 {
    spec_v3(fx_neg(a.x@), fx_neg(a.y@), fx_neg(a.z@))
}

pub open spec fn spec_v3_scale(a: Vec3, s: int) -> Vec3 {
    spec_v3(fx_mul(a.x@, s), fx_mul(a.y@, s), fx_mul(a.z@, s))
}

pub open spec fn spec_v3_dot(a: Vec3, b: Vec3) -> int {
    fx_add(fx_add(fx_mul(a.x@, b.x@), fx_mul(a.y@, b.y@)), fx_mul(a.z@, b.z@))
}

pub open spec fn spec_v3_cross(a: Vec3, b: Vec3) -> Vec3 {
    spec_v3(
        fx_sub(fx_mul(a.y@, b.z@), fx_mul(a.z@, b.y@)),
        fx_sub(fx_mul(a.z@, b.x@), fx_mul(a.x@, b.z@)),
        fx_sub(fx_mul(a.x@, b.y@), fx_mul(a.y@, b.x@)),
    )
}

/// The sum of the squared raw units of the components: the squared
/// length, carrying twice the fixed-point scale.
pub open spec fn spec_v3_sumsq(a: Vec3) -> int {
    a.x@ * a.x@ + a.y@ * a.y@ + a.z@ * a.z@
}

/// The integer square root: the unique `r >= 0` with
/// `r * r <= n < (r + 1) * (r + 1)`.
pub open spec fn spec_isqrt(n: int) -> int {
    choose|r: int| r >= 0 && #[trigger] (r * r) <= n && n < (r + 1) * (r + 1)
}

/// Any witness of the square-root bracket is the integer square root.
pub proof fn lemma_isqrt_unique(n: int, r: int)
    requires
        0 <= n,
        0 <= r,
        r * r <= n,
        n < (r + 1) * (r + 1),
    ensures
        spec_isqrt(n) == r,
{
    assert(r >= 0 && (r * r) <= n && n < (r + 1) * (r + 1));
    let c = spec_isqrt(n);
    assert(c >= 0 && c * c <= n && n < (c + 1) * (c + 1));
    assert(c == r) by (nonlinear_arith)
        requires
            c >= 0,
            r >= 0,
            c * c <= n,
            n < (c + 1) * (c + 1),
            r * r <= n,
            n < (r + 1) * (r + 1),
    ;
}

/// The vector scaled so its length becomes `t`; the zero vector is the
/// graceful result for a zero-length input.
#[verifier::opaque]
pub open spec fn spec_v3_normalize_to(v: Vec3, t: int) -> Vec3 {
    if spec_v3_sumsq(v) == 0 {
        spec_v3(0, 0, 0)
    } else {
        let n = spec_isqrt(spec_v3_sumsq(v));
        spec_v3(fx_muldiv(v.x@, t, n), fx_muldiv(v.y@, t, n), fx_muldiv(v.z@, t, n))
    }
}

/// Binary search for the integer square root of a wide sum of squares.
fn isqrt_u128(n: u128) -> (r: u128)
    ensures
        (r as int) * (r as int) <= n as int,
        (n as int) < (r as int + 1) * (r as int + 1),
        r < 0x1_0000_0000_0000_0000,
{
    let mut lo: u128 = 0;
    let mut hi: u128 = 0x1_0000_0000_0000_0000;
    proof {
        assert((hi as int) * (hi as int) > n as int);
    }
    while hi - lo > 1
        invariant
            lo < hi <= 0x1_0000_0000_0000_0000,
            (lo as int) * (lo as int) <= n as int,
            (n as int) < (hi as int) * (hi as int),
        decreases hi - lo,
    {
        let mid = lo + (hi - lo) / 2;
        proof {
            assert((mid as int) * (mid as int) <= 0xFFFF_FFFF_FFFF_FFFF_FFFF_FFFF_FFFF_FFFF)
                by (nonlinear_arith)
                requires
                    0 <= mid < 0x1_0000_0000_0000_0000,
            ;
        }
        let sq = mid * mid;
        if sq <= n {
            lo = mid;
        } else {
            hi = mid;
        }
    }
    lo
}

/// A square is never negative, and squares of 64-bit values fit the
/// wide range.
proof fn lemma_square_range(a: int)
    requires
        -0x8000_0000_0000_0000 <= a <= 0x7FFF_FFFF_FFFF_FFFF,
    ensures
        0 <= a * a <= 0x4000_0000_0000_0000_0000_0000_0000_0000,
{
    assert(0 <= a * a <= 0x4000_0000_0000_0000_0000_0000_0000_0000) by (nonlinear_arith)
        requires
            -0x8000_0000_0000_0000 <= a <= 0x7FFF_FFFF_FFFF_FFFF,
    ;
}

/// The squared length of `v` in raw units, computed wide.
fn sumsq_wide(v: Vec3) -> (s: u128)
    ensures
        s as int == spec_v3_sumsq(v),
{
    proof {
        lemma_square_range(v.x.bits as int);
        lemma_square_range(v.y.bits as int);
        lemma_square_range(v.z.bits as int);
    }
    let xx: i128 = (v.x.bits as i128) * (v.x.bits as i128);
    let yy: i128 = (v.y.bits as i128) * (v.y.bits as i128);
    let zz: i128 = (v.z.bits as i128) * (v.z.bits as i128);
    (xx as u128) + (yy as u128) + (zz as u128)
}

impl Vec2 {
    pub fn new(x: Fx, y: Fx) -> (r: Vec2)
        ensures
            r == (Vec2 { x, y }),
    {
        Vec2 { x, y }
    }

    pub fn zero() -> (r: Vec2)
        ensures
            r == spec_v2(0, 0),
    {
        Vec2 { x: Fx { bits: 0 }, y: Fx { bits: 0 } }
    }
}

impl Vec3 {
    pub fn new(x: Fx, y: Fx, z: Fx) -> (r: Vec3)
        ensures
            r == (Vec3 { x, y, z }),
    {
        Vec3 { x, y, z }
    }

    pub fn zero() -> (r: Vec3)
        ensures
            r == spec_v3(0, 0, 0),
    {
        Vec3 { x: Fx { bits: 0 }, y: Fx { bits: 0 }, z: Fx { bits: 0 } }
    }

    pub fn add(self, o: Vec3) -> (r: Vec3)
        ensures
            r == spec_v3_add(self, o),
    {
        Vec3 { x: self.x.add(o.x), y: self.y.add(o.y), z: self.z.add(o.z) }
    }

    pub fn sub(self, o: Vec3) -> (r: Vec3)
        ensures
            r == spec_v3_sub(self, o),
    {
        Vec3 { x: self.x.sub(o.x), y: self.y.sub(o.y), z: self.z.sub(o.z) }
    }

    pub fn neg(self) -> (r: Vec3)
        ensures
            r == spec_v3_neg(self),
    {
        Vec3 { x: self.x.neg(), y: self.y.neg(), z: self.z.neg() }
    }

    pub fn scale(self, s: Fx) -> (r: Vec3)
        ensures
            r == spec_v3_scale(self, s@),
    {
        Vec3 { x: self.x.mul(s), y: self.y.mul(s), z: self.z.mul(s) }
    }

    pub fn dot(self, o: Vec3) -> (r: Fx)
        ensures
            r@ == spec_v3_dot(self, o),
    {
        self.x.mul(o.x).add(self.y.mul(o.y)).add(self.z.mul(o.z))
    }

    pub fn cross(self, o: Vec3) -> (r: Vec3)
        ensures
            r == spec_v3_cross(self, o),
    {
        Vec3 {
            x: self.y.mul(o.z).sub(self.z.mul(o.y)),
            y: self.z.mul(o.x).sub(self.x.mul(o.z)),
            z: self.x.mul(o.y).sub(self.y.mul(o.x)),
        }
    }

    /// Scale this vector so its length becomes `target`; a zero vector
    /// stays zero.
    pub fn normalize_to(self, target: Fx) -> (r: Vec3)
        ensures
            r == spec_v3_normalize_to(self, target@),
    {
        proof {
            reveal(spec_v3_normalize_to);
        }
        let sq = sumsq_wide(self);
        if sq == 0 {
            Vec3::zero()
        } else {
            let n = isqrt_u128(sq);
            proof {
                lemma_isqrt_unique(sq as int, n as int);
            }
            let nd = n as u64;
            Vec3 {
                x: self.x.mul_div_units(target, nd),
                y: self.y.mul_div_units(target, nd),
                z: self.z.mul_div_units(target, nd),
            }
        }
    }

    /// Scale this vector to unit length; a zero vector stays zero.
    pub fn normalize(self) -> (r: Vec3)
        ensures
            r == spec_v3_normalize_to(self, FX_SCALE as int),
    {
        self.normalize_to(Fx::one())
    }
}

impl Vec4 {
    pub fn new(x: Fx, y: Fx, z: Fx, w: Fx) -> (r: Vec4)
        ensures
            r == (Vec4 { x, y, z, w }),
    {
        Vec4 { x, y, z, w }
    }

    pub fn zero() -> (r: Vec4)
        ensures
            r == spec_v4(0, 0, 0, 0),
    {
        Vec4 { x: Fx { bits: 0 }, y: Fx { bits: 0 }, z: Fx { bits: 0 }, w: Fx { bits: 0 } }
    }
}

/// One row entry of a matrix-vector product.
pub open spec fn spec_lincomb4(
    a: int,
    vx: int,
    b: int,
    vy: int,
    c: int,
    vz: int,
    d: int,
    vw: int,
) -> int {
    fx_add(fx_add(fx_add(fx_mul(a, vx), fx_mul(b, vy)), fx_mul(c, vz)), fx_mul(d, vw))
}

fn lincomb4(a: Fx, vx: Fx, b: Fx, vy: Fx, c: Fx, vz: Fx, d: Fx, vw: Fx) -> (r: Fx)
    ensures
        r@ == spec_lincomb4(a@, vx@, b@, vy@, c@, vz@, d@, vw@),
{
    a.mul(vx).add(b.mul(vy)).add(c.mul(vz)).add(d.mul(vw))
}

#[verifier::opaque]
pub open spec fn spec_mul_vec4(m: Mat4, v: Vec4) -> Vec4 {
    spec_v4(
        spec_lincomb4(m.cx.x@, v.x@, m.cy.x@, v.y@, m.cz.x@, v.z@, m.cw.x@, v.w@),
        spec_lincomb4(m.cx.y@, v.x@, m.cy.y@, v.y@, m.cz.y@, v.z@, m.cw.y@, v.w@),
        spec_lincomb4(m.cx.z@, v.x@, m.cy.z@, v.y@, m.cz.z@, v.z@, m.cw.z@, v.w@),
        spec_lincomb4(m.cx.w@, v.x@, m.cy.w@, v.y@, m.cz.w@, v.z@, m.cw.w@, v.w@),
    )
}

#[verifier::opaque]
pub open spec fn spec_mat_mul(a: Mat4, b: Mat4) -> Mat4 {
    Mat4 {
        cx: spec_mul_vec4(a, b.cx),
        cy: spec_mul_vec4(a, b.cy),
        cz: spec_mul_vec4(a, b.cz),
        cw: spec_mul_vec4(a, b.cw),
    }
}

#[verifier::opaque]
pub open spec fn spec_identity() -> Mat4 {
    Mat4 {
        cx: spec_v4(FX_SCALE as int, 0, 0, 0),
        cy: spec_v4(0, FX_SCALE as int, 0, 0),
        cz: spec_v4(0, 0, FX_SCALE as int, 0),
        cw: spec_v4(0, 0, 0, FX_SCALE as int),
    }
}

#[verifier::opaque]
pub open spec fn spec_from_translation(v: Vec3) -> Mat4 {
    Mat4 {
        cx: spec_v4(FX_SCALE as int, 0, 0, 0),
        cy: spec_v4(0, FX_SCALE as int, 0, 0),
        cz: spec_v4(0, 0, FX_SCALE as int, 0),
        cw: spec_v4(v.x@, v.y@, v.z@, FX_SCALE as int),
    }
}

/// Rotation about the x axis by `r` radians.
#[verifier::opaque]
pub open spec fn spec_rot_x(r: int) -> Mat4 {
    let s = spec_fx_sin(r);
    let c = spec_fx_cos(r);
    Mat4 {
        cx: spec_v4(FX_SCALE as int, 0, 0, 0),
        cy: spec_v4(0, c, s, 0),
        cz: spec_v4(0, -s, c, 0),
        cw: spec_v4(0, 0, 0, FX_SCALE as int),
    }
}

/// Rotation about the y axis by `r` radians.
#[verifier::opaque]
pub open spec fn spec_rot_y(r: int) -> Mat4 {
    let s = spec_fx_sin(r);
    let c = spec_fx_cos(r);
    Mat4 {
        cx: spec_v4(c, 0, -s, 0),
        cy: spec_v4(0, FX_SCALE as int, 0, 0),
        cz: spec_v4(s, 0, c, 0),
        cw: spec_v4(0, 0, 0, FX_SCALE as int),
    }
}

/// Rotation about the z axis by `r` radians.
#[verifier::opaque]
pub open spec fn spec_rot_z(r: int) -> Mat4 {
    let s = spec_fx_sin(r);
    let c = spec_fx_cos(r);
    Mat4 {
        cx: spec_v4(c, s, 0, 0),
        cy: spec_v4(-s, c, 0, 0),
        cz: spec_v4(0, 0, FX_SCALE as int, 0),
        cw: spec_v4(0, 0, 0, FX_SCALE as int),
    }
}

/// The combined rotation for Euler angles `x`, `y`, `z`.
#[verifier::opaque]
pub open spec fn spec_euler_mat(x: int, y: int, z: int) -> Mat4 {
    let sx = spec_fx_sin(x);
    let cx = spec_fx_cos(x);
    let sy = spec_fx_sin(y);
    let cy = spec_fx_cos(y);
    let sz = spec_fx_sin(z);
    let cz = spec_fx_cos(z);
    Mat4 {
        cx: spec_v4(
            fx_mul(cy, cz),
            fx_add(fx_mul(cx, sz), fx_mul(fx_mul(sx, sy), cz)),
            fx_sub(fx_mul(sx, sz), fx_mul(fx_mul(cx, sy), cz)),
            0,
        ),
        cy: spec_v4(
            fx_neg(fx_mul(cy, sz)),
            fx_sub(fx_mul(cx, cz), fx_mul(fx_mul(sx, sy), sz)),
            fx_add(fx_mul(sx, cz), fx_mul(fx_mul(cx, sy), sz)),
            0,
        ),
        cz: spec_v4(sy, fx_neg(fx_mul(sx, cy)), fx_mul(cx, cy), 0),
        cw: spec_v4(0, 0, 0, FX_SCALE as int),
    }
}

/// Rotation about an arbitrary axis (already normalized) by `r`
/// radians.
#[verifier::opaque]
pub open spec fn spec_axis_angle(axis: Vec3, r: int) -> Mat4 {
    let s = spec_fx_sin(r);
    let c = spec_fx_cos(r);
    let t = fx_sub(FX_SCALE as int, c);
    let ax = axis.x@;
    let ay = axis.y@;
    let az = axis.z@;
    Mat4 {
        cx: spec_v4(
            fx_add(fx_mul(fx_mul(t, ax), ax), c),
            fx_add(fx_mul(fx_mul(t, ax), ay), fx_mul(s, az)),
            fx_sub(fx_mul(fx_mul(t, ax), az), fx_mul(s, ay)),
            0,
        ),
        cy: spec_v4(
            fx_sub(fx_mul(fx_mul(t, ax), ay), fx_mul(s, az)),
            fx_add(fx_mul(fx_mul(t, ay), ay), c),
            fx_add(fx_mul(fx_mul(t, ay), az), fx_mul(s, ax)),
            0,
        ),
        cz: spec_v4(
            fx_add(fx_mul(fx_mul(t, ax), az), fx_mul(s, ay)),
            fx_sub(fx_mul(fx_mul(t, ay), az), fx_mul(s, ax)),
            fx_add(fx_mul(fx_mul(t, az), az), c),
            0,
        ),
        cw: spec_v4(0, 0, 0, FX_SCALE as int),
    }
}

/// The current transform applied to a point, with the homogeneous
/// divide; a zero weight divides to zero.
#[verifier::opaque]
pub open spec fn spec_transform_point(m: Mat4, p: Vec3) -> Vec3 {
    let h = spec_mul_vec4(m, spec_v4(p.x@, p.y@, p.z@, FX_SCALE as int));
    spec_v3(fx_div(h.x@, h.w@), fx_div(h.y@, h.w@), fx_div(h.z@, h.w@))
}

/// The current transform applied to a direction: no translation, no
/// divide.
#[verifier::opaque]
pub open spec fn spec_transform_vector(m: Mat4, v: Vec3) -> Vec3 {
    let h = spec_mul_vec4(m, spec_v4(v.x@, v.y@, v.z@, 0));
    spec_v3(h.x@, h.y@, h.z@)
}

impl Mat4 {
    /// The identity transform.
    pub fn identity() -> (r: Mat4)
        ensures
            r == spec_identity(),
    {
        proof {
            reveal(spec_identity);
        }
        let one = Fx::one();
        let zero = Fx::zero();
        Mat4 {
            cx: Vec4 { x: one, y: zero, z: zero, w: zero },
            cy: Vec4 { x: zero, y: one, z: zero, w: zero },
            cz: Vec4 { x: zero, y: zero, z: one, w: zero },
            cw: Vec4 { x: zero, y: zero, z: zero, w: one },
        }
    }

    /// The translation by `v`.
    pub fn from_translation(v: Vec3) -> (r: Mat4)
        ensures
            r == spec_from_translation(v),
    {
        proof {
            reveal(spec_from_translation);
        }
        let one = Fx::one();
        let zero = Fx::zero();
        Mat4 {
            cx: Vec4 { x: one, y: zero, z: zero, w: zero },
            cy: Vec4 { x: zero, y: one, z: zero, w: zero },
            cz: Vec4 { x: zero, y: zero, z: one, w: zero },
            cw: Vec4 { x: v.x, y: v.y, z: v.z, w: one },
        }
    }

    /// Rotation about the x axis by `r` radians.
    pub fn from_angle_x(r: Fx) -> (m: Mat4)
        ensures
            m == spec_rot_x(r@),
    {
        proof {
            reveal(spec_rot_x);
        }
        let s = r.sin();
        let c = r.cos();
        let one = Fx::one();
        let zero = Fx::zero();
        Mat4 {
            cx: Vec4 { x: one, y: zero, z: zero, w: zero },
            cy: Vec4 { x: zero, y: c, z: s, w: zero },
            cz: Vec4 { x: zero, y: s.neg(), z: c, w: zero },
            cw: Vec4 { x: zero, y: zero, z: zero, w: one },
        }
    }

    /// Rotation about the y axis by `r` radians.
    pub fn from_angle_y(r: Fx) -> (m: Mat4)
        ensures
            m == spec_rot_y(r@),
    {
        proof {
            reveal(spec_rot_y);
        }
        let s = r.sin();
        let c = r.cos();
        let one = Fx::one();
        let zero = Fx::zero();
        Mat4 {
            cx: Vec4 { x: c, y: zero, z: s.neg(), w: zero },
            cy: Vec4 { x: zero, y: one, z: zero, w: zero },
            cz: Vec4 { x: s, y: zero, z: c, w: zero },
            cw: Vec4 { x: zero, y: zero, z: zero, w: one },
        }
    }

    /// Rotation about the z axis by `r` radians.
    pub fn from_angle_z(r: Fx) -> (m: Mat4)
        ensures
            m == spec_rot_z(r@),
    {
        proof {
            reveal(spec_rot_z);
        }
        let s = r.sin();
        let c = r.cos();
        let one = Fx::one();
        let zero = Fx::zero();
        Mat4 {
            cx: Vec4 { x: c, y: s, z: zero, w: zero },
            cy: Vec4 { x: s.neg(), y: c, z: zero, w: zero },
            cz: Vec4 { x: zero, y: zero, z: one, w: zero },
            cw: Vec4 { x: zero, y: zero, z: zero, w: one },
        }
    }

    /// The combined rotation for Euler angles `x`, `y`, `z`.
    pub fn from_euler(x: Fx, y: Fx, z: Fx) -> (m: Mat4)
        ensures
            m == spec_euler_mat(x@, y@, z@),
    {
        proof {
            reveal(spec_euler_mat);
        }
        let sx = x.sin();
        let cx = x.cos();
        let sy = y.sin();
        let cy = y.cos();
        let sz = z.sin();
        let cz = z.cos();
        let one = Fx::one();
        let zero = Fx::zero();
        Mat4 {
            cx: Vec4 {
                x: cy.mul(cz),
                y: cx.mul(sz).add(sx.mul(sy).mul(cz)),
                z: sx.mul(sz).sub(cx.mul(sy).mul(cz)),
                w: zero,
            },
            cy: Vec4 {
                x: cy.mul(sz).neg(),
                y: cx.mul(cz).sub(sx.mul(sy).mul(sz)),
                z: sx.mul(cz).add(cx.mul(sy).mul(sz)),
                w: zero,
            },
            cz: Vec4 { x: sy, y: sx.mul(cy).neg(), z: cx.mul(cy), w: zero },
            cw: Vec4 { x: zero, y: zero, z: zero, w: one },
        }
    }

    /// Rotation about an arbitrary axis (already normalized) by `r`
    /// radians.
    pub fn from_axis_angle(axis: Vec3, r: Fx) -> (m: Mat4)
        ensures
            m == spec_axis_angle(axis, r@),
    {
        proof {
            reveal(spec_axis_angle);
        }
        let s = r.sin();
        let c = r.cos();
        let t = Fx::one().sub(c);
        let one = Fx::one();
        let zero = Fx::zero();
        Mat4 {
            cx: Vec4 {
                x: t.mul(axis.x).mul(axis.x).add(c),
                y: t.mul(axis.x).mul(axis.y).add(s.mul(axis.z)),
                z: t.mul(axis.x).mul(axis.z).sub(s.mul(axis.y)),
                w: zero,
            },
            cy: Vec4 {
                x: t.mul(axis.x).mul(axis.y).sub(s.mul(axis.z)),
                y: t.mul(axis.y).mul(axis.y).add(c),
                z: t.mul(axis.y).mul(axis.z).add(s.mul(axis.x)),
                w: zero,
            },
            cz: Vec4 {
                x: t.mul(axis.x).mul(axis.z).add(s.mul(axis.y)),
                y: t.mul(axis.y).mul(axis.z).sub(s.mul(axis.x)),
                z: t.mul(axis.z).mul(axis.z).add(c),
                w: zero,
            },
            cw: Vec4 { x: zero, y: zero, z: zero, w: one },
        }
    }

    /// This matrix applied to a four-vector.
    pub fn mul_vec4(&self, v: Vec4) -> (r: Vec4)
        ensures
            r == spec_mul_vec4(*self, v),
    {
        proof {
            reveal(spec_mul_vec4);
        }
        Vec4 {
            x: lincomb4(self.cx.x, v.x, self.cy.x, v.y, self.cz.x, v.z, self.cw.x, v.w),
            y: lincomb4(self.cx.y, v.x, self.cy.y, v.y, self.cz.y, v.z, self.cw.y, v.w),
            z: lincomb4(self.cx.z, v.x, self.cy.z, v.y, self.cz.z, v.z, self.cw.z, v.w),
            w: lincomb4(self.cx.w, v.x, self.cy.w, v.y, self.cz.w, v.z, self.cw.w, v.w),
        }
    }

    /// The matrix product `self * o`: `o` applied first.
    pub fn mul(&self, o: &Mat4) -> (r: Mat4)
        ensures
            r == spec_mat_mul(*self, *o),
    {
        proof {
            reveal(spec_mat_mul);
        }
        Mat4 {
            cx: self.mul_vec4(o.cx),
            cy: self.mul_vec4(o.cy),
            cz: self.mul_vec4(o.cz),
            cw: self.mul_vec4(o.cw),
        }
    }

    /// This transform applied to a point, with the homogeneous divide.
    pub fn transform_point(&self, p: Vec3) -> (r: Vec3)
        ensures
            r == spec_transform_point(*self, p),
    {
        proof {
            reveal(spec_transform_point);
        }
        let h = self.mul_vec4(Vec4 { x: p.x, y: p.y, z: p.z, w: Fx::one() });
        Vec3 { x: h.x.div(h.w), y: h.y.div(h.w), z: h.z.div(h.w) }
    }

    /// This transform applied to a direction: rotation and scale only.
    pub fn transform_vector(&self, v: Vec3) -> (r: Vec3)
        ensures
            r == spec_transform_vector(*self, v),
    {
        proof {
            reveal(spec_transform_vector);
        }
        let h = self.mul_vec4(Vec4 { x: v.x, y: v.y, z: v.z, w: Fx::zero() });
        Vec3 { x: h.x, y: h.y, z: h.z }
    }
}

} // verus!
