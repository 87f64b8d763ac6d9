//! The turtle's transform stack.
//!
//! A current 4x4 transform plus a LIFO stack of saved transforms.
//! Composition pre-multiplies: an incoming transform acts after what
//! has accumulated. Popping an empty stack resets the current transform
//! to identity — a deliberate forgiving default, never an error.

use vstd::prelude::*;

use crate::fixed::Fx;
use crate::vecmat::{spec_identity, spec_mat_mul, spec_transform_point, spec_transform_vector,
    spec_v3, Mat4, Vec3};

verus! {

/// The turtle state: a current transform and the saved ones.
pub struct MatrixStack {
    pub current: Mat4,
    pub stack: Vec<Mat4>,
}

/// Saving the current transform: the stack grows, the current stays.
pub open spec fn spec_stack_push(c: Mat4, s: Seq<Mat4>) -> (Mat4, Seq<Mat4>) {
    (c, s.push(c))
}

/// Restoring a transform: the most recently saved one, or identity at
/// the bottom of the stack.
pub open spec fn spec_stack_pop(c: Mat4, s: Seq<Mat4>) -> (Mat4, Seq<Mat4>) {
    if s.len() > 0 {
        (s.last(), s.drop_last())
    } else {
        (spec_identity(), s)
    }
}

/// A sequence of transforms composed onto a current transform, in
/// order; the stack is untouched by composition.
pub open spec fn spec_apply_transforms(ts: Seq<Mat4>, c: Mat4) -> Mat4
    decreases ts.len(),
{
    if ts.len() == 0 {
        c
    } else {
        spec_apply_transforms(ts.skip(1), spec_mat_mul(ts[0], c))
    }
}

/// Push/pop symmetry: save the current transform, compose any sequence
/// of further transforms, then pop — the current transform is again
/// exactly the one that stood immediately before the push, whatever
/// was composed in between.
pub proof fn lemma_push_pop_symmetry(c0: Mat4, s0: Seq<Mat4>, ts: Seq<Mat4>)
    ensures
        ({
            let pushed = spec_stack_push(c0, s0);
            let wandered = spec_apply_transforms(ts, pushed.0);
            spec_stack_pop(wandered, pushed.1).0 == c0
        }),
{
    let pushed = spec_stack_push(c0, s0);
    assert(pushed.1.len() > 0);
    assert(pushed.1.last() == c0);
}

impl MatrixStack {
    /// A fresh turtle: identity transform, empty stack.
    pub fn new() -> (r: MatrixStack)
        ensures
            r.current == spec_identity(),
            r.stack@ == Seq::<Mat4>::empty(),
    {
        MatrixStack { current: Mat4::identity(), stack: Vec::new() }
    }

    /// Compose an affine transform onto the current one.
    pub fn transform(&mut self, transformation: Mat4)
        ensures
            final(self).current == spec_mat_mul(transformation, old(self).current),
            final(self).stack@ == old(self).stack@,
    {
        self.current = transformation.mul(&self.current);
    }

    /// Compose a pure rotation onto the current transform.
    pub fn rotate(&mut self, rotation: Mat4)
        ensures
            final(self).current == spec_mat_mul(rotation, old(self).current),
            final(self).stack@ == old(self).stack@,
    {
        self.current = rotation.mul(&self.current);
    }

    /// Save the current transform on the stack.
    pub fn push(&mut self)
        ensures
            (final(self).current, final(self).stack@) == spec_stack_push(
                old(self).current,
                old(self).stack@,
            ),
    {
        let saved = self.current;
        self.stack.push(saved);
    }

    /// Restore the most recently saved transform, or identity when the
    /// stack is empty, and return the new current transform.
    pub fn pop(&mut self) -> (r: Mat4)
        ensures
            (final(self).current, final(self).stack@) == spec_stack_pop(
                old(self).current,
                old(self).stack@,
            ),
            r == final(self).current,
    {
        if self.stack.len() > 0 {
            let top_index = self.stack.len() - 1;
            let stack_top = self.stack.remove(top_index);
            proof {
                assert(old(self).stack@.remove(top_index as int) =~= old(
                    self,
                ).stack@.drop_last());
            }
            self.current = stack_top;
        } else {
            self.current = Mat4::identity();
        }
        self.current
    }

    /// The current transform applied to a direction.
    pub fn transform_vector(&self, target: Vec3) -> (r: Vec3)
        ensures
            r == spec_transform_vector(self.current, target),
    {
        self.current.transform_vector(target)
    }

    /// The current transform applied to a point.
    pub fn transform_point(&self, target: Vec3) -> (r: Vec3)
        ensures
            r == spec_transform_point(self.current, target),
    {
        self.current.transform_point(target)
    }

    /// The turtle's position: the current transform applied to the
    /// origin.
    pub fn origin(&self) -> (r: Vec3)
        ensures
            r == spec_transform_point(self.current, spec_v3(0, 0, 0)),
    {
        let zero = Fx::zero();
        self.current.transform_point(Vec3 { x: zero, y: zero, z: zero })
    }

    /// The current transform.
    pub fn get_matrix(&self) -> (r: Mat4)
        ensures
            r == self.current,
    {
        self.current
    }
}

} // verus!
