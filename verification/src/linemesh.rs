//! Line meshes: consecutive point pairs are independent segments.
//!
//! Every move appends two points, so unrelated strokes never connect:
//! `append_point` doubles the previous point before the new one, and
//! `move_to` doubles the new point (a lifted pen).

use vstd::prelude::*;

use crate::vecmat::{spec_v4, Vec3, Vec4};

verus! {

/// An ordered list of colored points, read in disjoint pairs.
pub struct LineMesh {
    pub points: Vec<Vec3>,
    pub colors: Vec<Vec4>,
    pub color: Vec4,
}

impl LineMesh {
    /// An empty line mesh drawing in the zero color.
    pub fn new() -> (m: LineMesh)
        ensures
            m.points@ == Seq::<Vec3>::empty(),
            m.colors@ == Seq::<Vec4>::empty(),
            m.color == spec_v4(0, 0, 0, 0),
    {
        LineMesh { points: Vec::new(), colors: Vec::new(), color: Vec4::zero() }
    }

    /// Change the color given to points added from now on.
    pub fn set_color(&mut self, color: Vec4)
        ensures
            final(self).points@ == old(self).points@,
            final(self).colors@ == old(self).colors@,
            final(self).color == color,
    {
        self.color = color;
    }

    /// Append one point in the current color.
    pub fn add_point(&mut self, pt: Vec3)
        ensures
            final(self).points@ == old(self).points@.push(pt),
            final(self).colors@ == old(self).colors@.push(old(self).color),
            final(self).color == old(self).color,
    {
        self.points.push(pt);
        let c = self.color;
        self.colors.push(c);
    }

    /// Extend the visible stroke to `pt`: double the previous point
    /// (or `pt` itself on an empty mesh), then add `pt`.
    pub fn append_point(&mut self, pt: Vec3)
        ensures
            old(self).points@.len() > 0 ==> final(self).points@ == old(self).points@ + seq![
                old(self).points@.last(),
                pt,
            ],
            old(self).points@.len() == 0 ==> final(self).points@ == seq![pt, pt],
            final(self).colors@ == old(self).colors@ + seq![old(self).color, old(self).color],
            final(self).color == old(self).color,
    {
        if self.points.len() > 0 {
            let last_point = self.points[self.points.len() - 1];
            self.add_point(last_point);
        } else {
            self.add_point(pt);
        }
        self.add_point(pt);
        proof {
            if old(self).points@.len() > 0 {
                assert(final(self).points@ =~= old(self).points@ + seq![
                    old(self).points@.last(),
                    pt,
                ]);
            } else {
                assert(final(self).points@ =~= seq![pt, pt]);
            }
            assert(final(self).colors@ =~= old(self).colors@ + seq![
                old(self).color,
                old(self).color,
            ]);
        }
    }

    /// Append one free-standing segment.
    pub fn append_segment(&mut self, pt_a: Vec3, pt_b: Vec3)
        ensures
            final(self).points@ == old(self).points@ + seq![pt_a, pt_b],
            final(self).colors@ == old(self).colors@ + seq![old(self).color, old(self).color],
            final(self).color == old(self).color,
    {
        self.add_point(pt_a);
        self.add_point(pt_b);
        proof {
            assert(final(self).points@ =~= old(self).points@ + seq![pt_a, pt_b]);
            assert(final(self).colors@ =~= old(self).colors@ + seq![
                old(self).color,
                old(self).color,
            ]);
        }
    }

    /// Lift the pen and move to `pt`: the doubled point starts a new
    /// stroke without connecting to the previous one.
    pub fn move_to(&mut self, pt: Vec3)
        ensures
            final(self).points@ == old(self).points@ + seq![pt, pt],
            final(self).colors@ == old(self).colors@ + seq![old(self).color, old(self).color],
            final(self).color == old(self).color,
    {
        self.add_point(pt);
        self.add_point(pt);
        proof {
            assert(final(self).points@ =~= old(self).points@ + seq![pt, pt]);
            assert(final(self).colors@ =~= old(self).colors@ + seq![
                old(self).color,
                old(self).color,
            ]);
        }
    }
}

} // verus!
