//! Mesh vertices: position, normal, color and texture coordinates.

use vstd::prelude::*;

use crate::vecmat::{spec_v2, spec_v3, spec_v4, Vec2, Vec3, Vec4};

verus! {

/// One vertex of a solid mesh.
#[derive(Clone, Copy, Debug, PartialEq, Eq, Structural)]
pub struct Vertex {
    pub a_color: Vec4,
    pub a_pos: Vec3,
    pub a_norm: Vec3,
    pub a_tex: Vec2,
}

/// The vertex with its normal replaced.
pub open spec fn with_normal(v: Vertex, n: Vec3) -> Vertex {
    Vertex { a_color: v.a_color, a_pos: v.a_pos, a_norm: n, a_tex: v.a_tex }
}

/// The vertex with its color replaced.
pub open spec fn with_color(v: Vertex, c: Vec4) -> Vertex {
    Vertex { a_color: c, a_pos: v.a_pos, a_norm: v.a_norm, a_tex: v.a_tex }
}

/// A vertex carrying only a position, everything else zero.
pub open spec fn spec_pos_only(pos: Vec3) -> Vertex {
    Vertex { a_color: spec_v4(0, 0, 0, 0), a_pos: pos, a_norm: spec_v3(0, 0, 0), a_tex: spec_v2(0, 0) }
}

impl Vertex {
    pub fn new(pos: Vec3, norm: Vec3, color: Vec4, tex: Vec2) -> (v: Vertex)
        ensures
            v == (Vertex { a_color: color, a_pos: pos, a_norm: norm, a_tex: tex }),
    {
        Vertex { a_color: color, a_pos: pos, a_norm: norm, a_tex: tex }
    }

    /// A vertex from a position alone; color, normal and texture start
    /// at zero.
    pub fn pos_only(pos: Vec3) -> (v: Vertex)
        ensures
            v == spec_pos_only(pos),
    {
        Vertex { a_color: Vec4::zero(), a_pos: pos, a_norm: Vec3::zero(), a_tex: Vec2::zero() }
    }

    pub fn from(pos: Vec3, norm: Vec3, color: Vec4, tex: Vec2) -> (v: Vertex)
        ensures
            v == (Vertex { a_color: color, a_pos: pos, a_norm: norm, a_tex: tex }),
    {
        Vertex { a_color: color, a_pos: pos, a_norm: norm, a_tex: tex }
    }

    pub fn from_pos(pos: Vec3) -> (v: Vertex)
        ensures
            v == spec_pos_only(pos),
    {
        Vertex::pos_only(pos)
    }

    pub fn pos_and_color(pos: Vec3, color: Vec4) -> (v: Vertex)
        ensures
            v == with_color(spec_pos_only(pos), color),
    {
        Vertex { a_color: color, a_pos: pos, a_norm: Vec3::zero(), a_tex: Vec2::zero() }
    }

    pub fn pos_and_tex(pos: Vec3, tex: Vec2) -> (v: Vertex)
        ensures
            v == (Vertex {
                a_color: spec_v4(0, 0, 0, 0),
                a_pos: pos,
                a_norm: spec_v3(0, 0, 0),
                a_tex: tex,
            }),
    {
        Vertex { a_color: Vec4::zero(), a_pos: pos, a_norm: Vec3::zero(), a_tex: tex }
    }

    pub fn from_pos_and_color(pos: Vec3, color: Vec4) -> (v: Vertex)
        ensures
            v == with_color(spec_pos_only(pos), color),
    {
        Vertex::pos_and_color(pos, color)
    }

    pub fn from_pos_and_tex(pos: Vec3, tex: Vec2) -> (v: Vertex)
        ensures
            v == (Vertex {
                a_color: spec_v4(0, 0, 0, 0),
                a_pos: pos,
                a_norm: spec_v3(0, 0, 0),
                a_tex: tex,
            }),
    {
        Vertex::pos_and_tex(pos, tex)
    }

    pub fn pos(&self) -> (r: Vec3)
        ensures
            r == self.a_pos,
    {
        self.a_pos
    }

    pub fn color(&self) -> (r: Vec4)
        ensures
            r == self.a_color,
    {
        self.a_color
    }

    pub fn normal(&self) -> (r: Vec3)
        ensures
            r == self.a_norm,
    {
        self.a_norm
    }

    pub fn tex(&self) -> (r: Vec2)
        ensures
            r == self.a_tex,
    {
        self.a_tex
    }

    pub fn set_pos(&mut self, pos: Vec3)
        ensures
            *final(self) == (Vertex {
                a_color: old(self).a_color,
                a_pos: pos,
                a_norm: old(self).a_norm,
                a_tex: old(self).a_tex,
            }),
    {
        self.a_pos = pos;
    }

    pub fn set_color(&mut self, color: Vec4)
        ensures
            *final(self) == with_color(*old(self), color),
    {
        self.a_color = color;
    }

    pub fn set_normal(&mut self, norm: Vec3)
        ensures
            *final(self) == with_normal(*old(self), norm),
    {
        self.a_norm = norm;
    }

    /// Scale this vertex's normal to unit length; a zero normal stays
    /// zero.
    pub fn normalize_normal(&mut self)
        ensures
            *final(self) == with_normal(
                *old(self),
                crate::vecmat::spec_v3_normalize_to(old(self).a_norm, crate::fixed::FX_SCALE as int),
            ),
    {
        self.a_norm = self.a_norm.normalize();
    }

    pub fn set_tex(&mut self, tex: Vec2)
        ensures
            *final(self) == (Vertex {
                a_color: old(self).a_color,
                a_pos: old(self).a_pos,
                a_norm: old(self).a_norm,
                a_tex: tex,
            }),
    {
        self.a_tex = tex;
    }
}

/// One vertex of a line mesh: a position and a color.
#[derive(Clone, Copy, Debug, PartialEq, Eq, Structural)]
pub struct LineVertex {
    pub a_color: Vec4,
    pub a_pos: Vec3,
}

impl LineVertex {
    pub fn new(pos: Vec3, color: Vec4) -> (v: LineVertex)
        ensures
            v == (LineVertex { a_color: color, a_pos: pos }),
    {
        LineVertex { a_color: color, a_pos: pos }
    }

    pub fn from(pos: Vec3, color: Vec4) -> (v: LineVertex)
        ensures
            v == (LineVertex { a_color: color, a_pos: pos }),
    {
        LineVertex { a_color: color, a_pos: pos }
    }
}

} // verus!
