//! Indexed triangle meshes: vertex array, index array, topology tag.
//!
//! The central operation is [`VertexIndexMesh::extend_with`], which
//! appends another mesh and offsets every incoming index by the old
//! vertex count, keeping all indices pointing at the vertices they
//! pointed at before. Normal recomputation zeroes all vertex normals,
//! accumulates each triangle's face normal onto its three corners, and
//! finally normalizes every vertex normal.

use vstd::prelude::*;

use crate::fixed::FX_SCALE;
use crate::vecmat::{spec_v3, spec_v3_add, spec_v3_cross, spec_v3_normalize_to, spec_v3_sub, Vec3,
    Vec4};
use crate::vertex::{spec_pos_only, with_color, with_normal, Vertex};

verus! {

/// How the index array groups into primitives.
#[derive(Clone, Copy, Debug, PartialEq, Eq, Structural)]
pub enum PrimitiveType {
    /// Isolated points.
    PointsList,
    /// Consecutive index pairs are independent line segments.
    LinesList,
    /// Consecutive index triples are triangles.
    TrianglesList,
}

/// An indexed mesh.
pub struct VertexIndexMesh {
    pub vertices: Vec<Vertex>,
    pub indices: Vec<u32>,
    pub primtype: PrimitiveType,
}

/// Every index points inside the vertex array.
pub open spec fn indices_in_bounds(indices: Seq<u32>, vertex_count: int) -> bool {
    forall|i: int| 0 <= i < indices.len() ==> (#[trigger] indices[i]) < vertex_count
}

/// All vertex normals zeroed.
pub open spec fn spec_zero_normals(vs: Seq<Vertex>) -> Seq<Vertex> {
    Seq::new(vs.len(), |i: int| with_normal(vs[i], spec_v3(0, 0, 0)))
}

/// The face normal of one triangle: the normalized cross product of
/// two edges leaving the apex vertex.
pub open spec fn spec_face_normal(vs: Seq<Vertex>, i0: int, i1: int, i2: int) -> Vec3 {
    let apex = vs[i0].a_pos;
    spec_v3_normalize_to(
        spec_v3_cross(spec_v3_sub(apex, vs[i1].a_pos), spec_v3_sub(apex, vs[i2].a_pos)),
        FX_SCALE as int,
    )
}

/// Add `n` onto the normal of vertex `i`.
pub open spec fn spec_add_normal(vs: Seq<Vertex>, i: int, n: Vec3) -> Seq<Vertex> {
    vs.update(i, with_normal(vs[i], spec_v3_add(vs[i].a_norm, n)))
}

/// Accumulate one triangle's face normal onto its three corners, one
/// after the other, so a repeated corner receives it repeatedly.
pub open spec fn spec_accum_tri(vs: Seq<Vertex>, i0: int, i1: int, i2: int) -> Seq<Vertex> {
    let n = spec_face_normal(vs, i0, i1, i2);
    spec_add_normal(spec_add_normal(spec_add_normal(vs, i0, n), i1, n), i2, n)
}

/// Accumulate the face normals of the first `t` triangles.
pub open spec fn spec_accum_all(vs: Seq<Vertex>, indices: Seq<u32>, t: nat) -> Seq<Vertex>
    decreases t,
{
    if t == 0 {
        vs
    } else {
        let prev = spec_accum_all(vs, indices, (t - 1) as nat);
        spec_accum_tri(
            prev,
            indices[3 * (t - 1)] as int,
            indices[3 * (t - 1) + 1] as int,
            indices[3 * (t - 1) + 2] as int,
        )
    }
}

/// Normalize every vertex normal; a zero normal stays zero.
pub open spec fn spec_normalize_all(vs: Seq<Vertex>) -> Seq<Vertex> {
    Seq::new(
        vs.len(),
        |i: int| with_normal(vs[i], spec_v3_normalize_to(vs[i].a_norm, FX_SCALE as int)),
    )
}

/// The whole normal recompute: zero, accumulate every full index
/// triple (a stray remainder is skipped), normalize.
pub open spec fn spec_recompute_normals(vs: Seq<Vertex>, indices: Seq<u32>) -> Seq<Vertex> {
    spec_normalize_all(spec_accum_all(spec_zero_normals(vs), indices, (indices.len() / 3) as nat))
}

/// Accumulation never changes how many vertices there are.
pub proof fn lemma_accum_all_len(vs: Seq<Vertex>, indices: Seq<u32>, t: nat)
    requires
        3 * t <= indices.len(),
        indices_in_bounds(indices, vs.len() as int),
    ensures
        spec_accum_all(vs, indices, t).len() == vs.len(),
    decreases t,
{
    if t > 0 {
        lemma_accum_all_len(vs, indices, (t - 1) as nat);
        let prev = spec_accum_all(vs, indices, (t - 1) as nat);
        assert((indices[3 * (t - 1)] as int) < vs.len());
        assert((indices[3 * (t - 1) + 1] as int) < vs.len());
        assert((indices[3 * (t - 1) + 2] as int) < vs.len());
    }
}

/// Accumulation leaves a vertex alone that none of the first `t`
/// triangles references.
pub proof fn lemma_accum_all_untouched(vs: Seq<Vertex>, indices: Seq<u32>, t: nat, i: int)
    requires
        0 <= i < vs.len(),
        3 * t <= indices.len(),
        indices_in_bounds(indices, vs.len() as int),
        forall|k: int| 0 <= k < 3 * t ==> (#[trigger] indices[k]) as int != i,
    ensures
        spec_accum_all(vs, indices, t)[i] == vs[i],
    decreases t,
{
    if t > 0 {
        lemma_accum_all_untouched(vs, indices, (t - 1) as nat, i);
        lemma_accum_all_len(vs, indices, (t - 1) as nat);
        assert(indices[3 * (t - 1)] as int != i);
        assert(indices[3 * (t - 1) + 1] as int != i);
        assert(indices[3 * (t - 1) + 2] as int != i);
    }
}

/// Accumulation touches nothing but normals.
pub proof fn lemma_accum_all_preserves_rest(vs: Seq<Vertex>, indices: Seq<u32>, t: nat, j: int)
    requires
        0 <= j < vs.len(),
        3 * t <= indices.len(),
        indices_in_bounds(indices, vs.len() as int),
    ensures
        spec_accum_all(vs, indices, t)[j].a_pos == vs[j].a_pos,
        spec_accum_all(vs, indices, t)[j].a_color == vs[j].a_color,
        spec_accum_all(vs, indices, t)[j].a_tex == vs[j].a_tex,
    decreases t,
{
    if t > 0 {
        lemma_accum_all_preserves_rest(vs, indices, (t - 1) as nat, j);
        lemma_accum_all_len(vs, indices, (t - 1) as nat);
    }
}

/// The recompute changes nothing but normals: positions, colors and
/// texture coordinates come through untouched.
pub proof fn lemma_recompute_preserves_rest(vs: Seq<Vertex>, indices: Seq<u32>, j: int)
    requires
        0 <= j < vs.len(),
        indices_in_bounds(indices, vs.len() as int),
    ensures
        spec_recompute_normals(vs, indices).len() == vs.len(),
        spec_recompute_normals(vs, indices)[j].a_pos == vs[j].a_pos,
        spec_recompute_normals(vs, indices)[j].a_color == vs[j].a_color,
        spec_recompute_normals(vs, indices)[j].a_tex == vs[j].a_tex,
{
    let zeroed = spec_zero_normals(vs);
    let t = (indices.len() / 3) as nat;
    lemma_accum_all_len(zeroed, indices, t);
    lemma_accum_all_preserves_rest(zeroed, indices, t, j);
}

/// Coloring changes nothing but colors.
pub proof fn lemma_assign_colors_preserves_rest(
    vs: Seq<Vertex>,
    indices: Seq<u32>,
    colors: Seq<Vec4>,
    t: nat,
    j: int,
)
    requires
        0 <= j < vs.len(),
        3 * t <= indices.len(),
        indices_in_bounds(indices, vs.len() as int),
    ensures
        spec_assign_colors(vs, indices, colors, t)[j].a_pos == vs[j].a_pos,
        spec_assign_colors(vs, indices, colors, t)[j].a_norm == vs[j].a_norm,
        spec_assign_colors(vs, indices, colors, t)[j].a_tex == vs[j].a_tex,
    decreases t,
{
    if t > 0 {
        lemma_assign_colors_preserves_rest(vs, indices, colors, (t - 1) as nat, j);
        lemma_assign_colors_len(vs, indices, colors, (t - 1) as nat);
    }
}

/// A vertex that no full index triple references comes out of the
/// recompute with the zero normal.
pub proof fn lemma_untouched_normal_stays_zero(vs: Seq<Vertex>, indices: Seq<u32>, i: int)
    requires
        0 <= i < vs.len(),
        indices_in_bounds(indices, vs.len() as int),
        forall|k: int| 0 <= k < 3 * (indices.len() / 3) ==> (#[trigger] indices[k]) as int != i,
    ensures
        spec_recompute_normals(vs, indices)[i].a_norm == spec_v3(0, 0, 0),
{
    let zeroed = spec_zero_normals(vs);
    let t = (indices.len() / 3) as nat;
    lemma_accum_all_untouched(zeroed, indices, t, i);
    lemma_accum_all_len(zeroed, indices, t);
    let acc = spec_accum_all(zeroed, indices, t);
    assert(acc[i] == with_normal(vs[i], spec_v3(0, 0, 0)));
    assert(spec_recompute_normals(vs, indices)[i] == with_normal(
        acc[i],
        spec_v3_normalize_to(acc[i].a_norm, FX_SCALE as int),
    ));
    reveal(crate::vecmat::spec_v3_normalize_to);
    assert(spec_v3(0, 0, 0).x@ == 0);
    assert(spec_v3(0, 0, 0).y@ == 0);
    assert(spec_v3(0, 0, 0).z@ == 0);
    assert(crate::vecmat::spec_v3_sumsq(spec_v3(0, 0, 0)) == 0) by (nonlinear_arith)
        requires
            spec_v3(0, 0, 0).x@ == 0,
            spec_v3(0, 0, 0).y@ == 0,
            spec_v3(0, 0, 0).z@ == 0,
    ;
}

impl VertexIndexMesh {
    /// An empty mesh of the given topology.
    pub fn new(primtype: PrimitiveType) -> (m: VertexIndexMesh)
        ensures
            m.vertices@ == Seq::<Vertex>::empty(),
            m.indices@ == Seq::<u32>::empty(),
            m.primtype == primtype,
    {
        VertexIndexMesh { vertices: Vec::new(), indices: Vec::new(), primtype }
    }

    /// Append a vertex, indexed right where it lands.
    pub fn add_vertex(&mut self, vert: Vertex)
        requires
            old(self).indices@.len() < 0xFFFF_FFFF,
        ensures
            final(self).vertices@ == old(self).vertices@.push(vert),
            final(self).indices@ == old(self).indices@.push(old(self).indices@.len() as u32),
            final(self).primtype == old(self).primtype,
    {
        self.vertices.push(vert);
        let last = self.indices.len() as u32;
        self.indices.push(last);
    }

    /// Append a bare position as a new vertex.
    pub fn add_point(&mut self, point: Vec3)
        requires
            old(self).indices@.len() < 0xFFFF_FFFF,
        ensures
            final(self).vertices@ == old(self).vertices@.push(spec_pos_only(point)),
            final(self).indices@ == old(self).indices@.push(old(self).indices@.len() as u32),
            final(self).primtype == old(self).primtype,
    {
        self.add_vertex(Vertex::from_pos(point));
    }

    /// Append another mesh: its vertices follow ours, and every one of
    /// its indices is offset by our old vertex count, so each still
    /// references the vertex it referenced before. Assumes the
    /// primitive type is the same.
    pub fn extend_with(&mut self, other: &VertexIndexMesh)
        requires
            old(self).vertices@.len() + other.vertices@.len() <= 0xFFFF_FFFF,
            indices_in_bounds(other.indices@, other.vertices@.len() as int),
        ensures
            final(self).vertices@ == old(self).vertices@ + other.vertices@,
            final(self).indices@.len() == old(self).indices@.len() + other.indices@.len(),
            forall|i: int|
                0 <= i < old(self).indices@.len() ==> final(self).indices@[i] == old(
                    self,
                ).indices@[i],
            forall|i: int|
                0 <= i < other.indices@.len() ==> final(self).indices@[old(self).indices@.len() + i]
                    == other.indices@[i] + old(self).vertices@.len(),
            final(self).primtype == old(self).primtype,
    {
        let num_verts = self.vertices.len() as u32;
        let mut vi: usize = 0;
        while vi < other.vertices.len()
            invariant
                vi <= other.vertices@.len(),
                self.vertices@ == old(self).vertices@ + other.vertices@.take(vi as int),
                self.indices@ == old(self).indices@,
                self.primtype == old(self).primtype,
                num_verts == old(self).vertices@.len(),
                old(self).vertices@.len() + other.vertices@.len() <= 0xFFFF_FFFF,
            decreases other.vertices@.len() - vi,
        {
            let vert = other.vertices[vi];
            self.vertices.push(vert);
            proof {
                assert(old(self).vertices@ + other.vertices@.take(vi as int + 1) =~= (old(
                    self,
                ).vertices@ + other.vertices@.take(vi as int)).push(vert));
            }
            vi += 1;
        }
        proof {
            assert(other.vertices@.take(other.vertices@.len() as int) =~= other.vertices@);
        }
        let mut ii: usize = 0;
        while ii < other.indices.len()
            invariant
                ii <= other.indices@.len(),
                self.vertices@ == old(self).vertices@ + other.vertices@,
                self.primtype == old(self).primtype,
                num_verts == old(self).vertices@.len(),
                old(self).vertices@.len() + other.vertices@.len() <= 0xFFFF_FFFF,
                indices_in_bounds(other.indices@, other.vertices@.len() as int),
                self.indices@.len() == old(self).indices@.len() + ii,
                forall|i: int|
                    0 <= i < old(self).indices@.len() ==> self.indices@[i] == old(self).indices@[i],
                forall|i: int|
                    0 <= i < ii ==> self.indices@[old(self).indices@.len() + i] == other.indices@[i]
                        + old(self).vertices@.len(),
            decreases other.indices@.len() - ii,
        {
            let index = other.indices[ii];
            self.indices.push(num_verts + index);
            ii += 1;
        }
    }

    /// Recompute smooth vertex normals: zero them all, add each full
    /// triangle's face normal onto its three corners, then normalize
    /// each vertex normal. A stray remainder of one or two indices is
    /// skipped; a vertex in no triangle keeps the zero normal.
    pub fn recompute_normals(&mut self)
        requires
            indices_in_bounds(old(self).indices@, old(self).vertices@.len() as int),
        ensures
            final(self).vertices@ == spec_recompute_normals(old(self).vertices@, old(self).indices@),
            final(self).indices@ == old(self).indices@,
            final(self).primtype == old(self).primtype,
            final(self).vertices@.len() == old(self).vertices@.len(),
    {
        let n = self.vertices.len();
        let mut i: usize = 0;
        while i < n
            invariant
                i <= n,
                n == self.vertices@.len(),
                self.indices@ == old(self).indices@,
                self.primtype == old(self).primtype,
                old(self).vertices@.len() == n,
                forall|j: int|
                    0 <= j < i ==> self.vertices@[j] == with_normal(
                        old(self).vertices@[j],
                        spec_v3(0, 0, 0),
                    ),
                forall|j: int| i <= j < n ==> self.vertices@[j] == old(self).vertices@[j],
            decreases n - i,
        {
            let v = self.vertices[i];
            self.vertices[i] = Vertex {
                a_color: v.a_color,
                a_pos: v.a_pos,
                a_norm: Vec3::zero(),
                a_tex: v.a_tex,
            };
            i += 1;
        }
        proof {
            assert(self.vertices@ =~= spec_zero_normals(old(self).vertices@));
        }
        let ghost zeroed = self.vertices@;
        let tri_count = self.indices.len() / 3;
        proof {
            assert(self.indices@.len() <= usize::MAX as int);
        }
        let mut t: usize = 0;
        while t < tri_count
            invariant
                t <= tri_count,
                tri_count == self.indices@.len() / 3,
                self.indices@.len() <= usize::MAX as int,
                n == self.vertices@.len(),
                zeroed.len() == n,
                self.indices@ == old(self).indices@,
                self.primtype == old(self).primtype,
                old(self).vertices@.len() == n,
                indices_in_bounds(self.indices@, n as int),
                self.vertices@ == spec_accum_all(zeroed, self.indices@, t as nat),
            decreases tri_count - t,
        {
            let ghost prev = self.vertices@;
            proof {
                assert(3 * (t as int) + 2 < self.indices@.len());
                lemma_accum_all_len(zeroed, self.indices@, t as nat);
            }
            let i0 = self.indices[3 * t] as usize;
            let i1 = self.indices[3 * t + 1] as usize;
            let i2 = self.indices[3 * t + 2] as usize;
            let apex = self.vertices[i0].a_pos;
            let s0 = apex.sub(self.vertices[i1].a_pos);
            let s1 = apex.sub(self.vertices[i2].a_pos);
            let normal = s0.cross(s1).normalize();
            let v0 = self.vertices[i0];
            self.vertices[i0] = Vertex {
                a_color: v0.a_color,
                a_pos: v0.a_pos,
                a_norm: v0.a_norm.add(normal),
                a_tex: v0.a_tex,
            };
            let v1 = self.vertices[i1];
            self.vertices[i1] = Vertex {
                a_color: v1.a_color,
                a_pos: v1.a_pos,
                a_norm: v1.a_norm.add(normal),
                a_tex: v1.a_tex,
            };
            let v2 = self.vertices[i2];
            self.vertices[i2] = Vertex {
                a_color: v2.a_color,
                a_pos: v2.a_pos,
                a_norm: v2.a_norm.add(normal),
                a_tex: v2.a_tex,
            };
            proof {
                assert(normal == spec_face_normal(prev, i0 as int, i1 as int, i2 as int));
                assert(self.vertices@ =~= spec_accum_tri(prev, i0 as int, i1 as int, i2 as int));
                assert(self.vertices@ =~= spec_accum_all(zeroed, self.indices@, (t + 1) as nat));
            }
            t += 1;
        }
        let ghost accumulated = self.vertices@;
        let mut k: usize = 0;
        while k < n
            invariant
                k <= n,
                n == self.vertices@.len(),
                accumulated.len() == n,
                self.indices@ == old(self).indices@,
                self.primtype == old(self).primtype,
                forall|j: int|
                    0 <= j < k ==> self.vertices@[j] == with_normal(
                        accumulated[j],
                        spec_v3_normalize_to(accumulated[j].a_norm, FX_SCALE as int),
                    ),
                forall|j: int| k <= j < n ==> self.vertices@[j] == accumulated[j],
            decreases n - k,
        {
            let v = self.vertices[k];
            self.vertices[k] = Vertex {
                a_color: v.a_color,
                a_pos: v.a_pos,
                a_norm: v.a_norm.normalize(),
                a_tex: v.a_tex,
            };
            k += 1;
        }
        proof {
            assert(self.vertices@ =~= spec_normalize_all(accumulated));
        }
    }
}

/// The per-triangle colors written into the vertex array: the color of
/// triangle `t` lands on all three of its corners, later triangles
/// overwriting earlier ones on a shared corner.
pub open spec fn spec_assign_colors(
    vs: Seq<Vertex>,
    indices: Seq<u32>,
    colors: Seq<Vec4>,
    t: nat,
) -> Seq<Vertex>
    decreases t,
{
    if t == 0 {
        vs
    } else {
        let prev = spec_assign_colors(vs, indices, colors, (t - 1) as nat);
        let c = colors[t - 1];
        let i0 = indices[3 * (t - 1)] as int;
        let i1 = indices[3 * (t - 1) + 1] as int;
        let i2 = indices[3 * (t - 1) + 2] as int;
        let s0 = prev.update(i0, with_color(prev[i0], c));
        let s1 = s0.update(i1, with_color(s0[i1], c));
        s1.update(i2, with_color(s1[i2], c))
    }
}

/// Coloring never changes how many vertices there are.
pub proof fn lemma_assign_colors_len(
    vs: Seq<Vertex>,
    indices: Seq<u32>,
    colors: Seq<Vec4>,
    t: nat,
)
    requires
        3 * t <= indices.len(),
        indices_in_bounds(indices, vs.len() as int),
    ensures
        spec_assign_colors(vs, indices, colors, t).len() == vs.len(),
    decreases t,
{
    if t > 0 {
        lemma_assign_colors_len(vs, indices, colors, (t - 1) as nat);
        assert((indices[3 * (t - 1)] as int) < vs.len());
        assert((indices[3 * (t - 1) + 1] as int) < vs.len());
        assert((indices[3 * (t - 1) + 2] as int) < vs.len());
    }
}

/// Paint each full triangle with its own color: the color of triangle
/// `t` is written onto its three corner vertices.
pub fn assign_colors(mesh: VertexIndexMesh, colors: &Vec<Vec4>) -> (out: VertexIndexMesh)
    requires
        indices_in_bounds(mesh.indices@, mesh.vertices@.len() as int),
        colors@.len() >= mesh.indices@.len() / 3,
    ensures
        out.vertices@ == spec_assign_colors(
            mesh.vertices@,
            mesh.indices@,
            colors@,
            (mesh.indices@.len() / 3) as nat,
        ),
        out.indices@ == mesh.indices@,
        out.primtype == mesh.primtype,
{
    let mut mesh = mesh;
    let tri_count = mesh.indices.len() / 3;
    proof {
        assert(mesh.indices@.len() <= usize::MAX as int);
    }
    let mut t: usize = 0;
    let ghost original = mesh.vertices@;
    let ghost orig_indices = mesh.indices@;
    let ghost orig_primtype = mesh.primtype;
    while t < tri_count
        invariant
            t <= tri_count,
            mesh.indices@ == orig_indices,
            mesh.primtype == orig_primtype,
            tri_count == mesh.indices@.len() / 3,
            mesh.indices@.len() <= usize::MAX as int,
            colors@.len() >= tri_count,
            mesh.vertices@.len() == original.len(),
            indices_in_bounds(mesh.indices@, original.len() as int),
            mesh.vertices@ == spec_assign_colors(original, mesh.indices@, colors@, t as nat),
        decreases tri_count - t,
    {
        let ghost prev = mesh.vertices@;
        proof {
            assert(3 * (t as int) + 2 < mesh.indices@.len());
            lemma_assign_colors_len(original, mesh.indices@, colors@, t as nat);
        }
        let c = colors[t];
        let i0 = mesh.indices[3 * t] as usize;
        let i1 = mesh.indices[3 * t + 1] as usize;
        let i2 = mesh.indices[3 * t + 2] as usize;
        let v0 = mesh.vertices[i0];
        mesh.vertices[i0] = Vertex {
            a_color: c,
            a_pos: v0.a_pos,
            a_norm: v0.a_norm,
            a_tex: v0.a_tex,
        };
        let v1 = mesh.vertices[i1];
        mesh.vertices[i1] = Vertex {
            a_color: c,
            a_pos: v1.a_pos,
            a_norm: v1.a_norm,
            a_tex: v1.a_tex,
        };
        let v2 = mesh.vertices[i2];
        mesh.vertices[i2] = Vertex {
            a_color: c,
            a_pos: v2.a_pos,
            a_norm: v2.a_norm,
            a_tex: v2.a_tex,
        };
        proof {
            assert(mesh.vertices@ =~= spec_assign_colors(
                original,
                mesh.indices@,
                colors@,
                (t + 1) as nat,
            ));
        }
        t += 1;
    }
    mesh
}

/// Recompute a mesh's normals, by value.
pub fn recompute_normals(mesh: VertexIndexMesh) -> (out: VertexIndexMesh)
    requires
        indices_in_bounds(mesh.indices@, mesh.vertices@.len() as int),
    ensures
        out.vertices@ == spec_recompute_normals(mesh.vertices@, mesh.indices@),
        out.indices@ == mesh.indices@,
        out.primtype == mesh.primtype,
{
    let mut mesh = mesh;
    mesh.recompute_normals();
    mesh
}

} // verus!
