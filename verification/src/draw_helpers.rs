//! Turtle interpretation of words into geometry.
//!
//! The line walker traces a polyline skeleton; the solid walker emits a
//! cylinder per branch segment and records a foliage request per
//! foliage command, then recomputes the mesh's normals. The cylinder
//! generator builds a lateral surface of staggered quads around the
//! stem axis.

use vstd::prelude::*;

use crate::fixed::{fx_add, fx_div_int, fx_mul_int, fxb, Fx, FX_SCALE, FX_TWO_PI};
use crate::linemesh::LineMesh;
use crate::lsystem::{spec_to_draw_command, DrawCommand, Module};
use crate::math::y_axis;
use crate::matrixstack::{spec_stack_pop, MatrixStack};
use crate::rand_util::random_lohi;
use crate::vecmat::{spec_from_translation, spec_identity, spec_mat_mul, spec_rot_x, spec_rot_y,
    spec_rot_z, spec_euler_mat, spec_axis_angle, spec_transform_point, spec_transform_vector,
    spec_v3, spec_v3_add, spec_v3_cross, spec_v3_normalize_to, spec_v3_scale, spec_v3_sub,
    spec_v4, Mat4, Vec3, Vec4};
use crate::vertex::{spec_pos_only, Vertex};
use crate::vertex_index_mesh::{assign_colors, indices_in_bounds, spec_assign_colors,
    spec_recompute_normals, PrimitiveType, VertexIndexMesh};

verus! {

/// Every point of `points`, moved by `transform`.
pub fn transform_points(points: &Vec<Vec3>, transform: Mat4) -> (out: Vec<Vec3>)
    ensures
        out@ == points@.map_values(|p: Vec3| spec_transform_point(transform, p)),
{
    let mut out: Vec<Vec3> = Vec::new();
    let n = points.len();
    let mut i: usize = 0;
    proof {
        assert(out@ =~= points@.take(0).map_values(|p: Vec3| spec_transform_point(transform, p)));
    }
    while i < n
        invariant
            i <= n,
            n == points@.len(),
            out@ == points@.take(i as int).map_values(
                |p: Vec3| spec_transform_point(transform, p),
            ),
        decreases n - i,
    {
        let moved = transform.transform_point(points[i]);
        out.push(moved);
        proof {
            assert(out@ =~= points@.take(i as int + 1).map_values(
                |p: Vec3| spec_transform_point(transform, p),
            ));
        }
        i += 1;
    }
    proof {
        assert(points@.take(n as int) =~= points@);
    }
    out
}

/// The normalized stem axis of a cylinder.
pub open spec fn spec_cyl_axis(start: Vec3, end: Vec3) -> Vec3 {
    spec_v3_normalize_to(spec_v3_sub(end, start), FX_SCALE as int)
}

/// The radius-length vector perpendicular to the stem axis: the axis
/// crossed with the x axis, or with the y axis when the axis is the x
/// axis itself.
pub open spec fn spec_cyl_perp(start: Vec3, end: Vec3, radius: Fx) -> Vec3 {
    let axis = spec_cyl_axis(start, end);
    let cross_vec = if axis == spec_v3(FX_SCALE as int, 0, 0) {
        spec_v3(0, FX_SCALE as int, 0)
    } else {
        spec_v3(FX_SCALE as int, 0, 0)
    };
    spec_v3_normalize_to(spec_v3_cross(axis, cross_vec), radius@)
}

/// The six template points of one cylinder wedge: stem foot, two base
/// rim points, two top rim points offset by half a step (staggering the
/// quads), stem head.
pub open spec fn spec_cyl_base_points(start: Vec3, end: Vec3, facets: u32, radius: Fx) -> Seq<
    Vec3,
> {
    let axis = spec_cyl_axis(start, end);
    let perp = spec_cyl_perp(start, end, radius);
    let rot_angle = fx_div_int(FX_TWO_PI as int, facets as int);
    let offset_angle = fx_div_int(rot_angle, 2);
    let half_step = spec_axis_angle(axis, offset_angle);
    let full_step = spec_axis_angle(axis, rot_angle);
    let one_and_one_half_step = spec_axis_angle(axis, fx_add(rot_angle, offset_angle));
    seq![
        start,
        spec_v3_add(start, perp),
        spec_v3_add(start, spec_transform_vector(full_step, perp)),
        spec_v3_add(end, spec_transform_vector(half_step, perp)),
        spec_v3_add(end, spec_transform_vector(one_and_one_half_step, perp)),
        end,
    ]
}

/// The index pattern of one wedge: bottom, left triangle, right
/// triangle, top.
pub open spec fn spec_cyl_base_indices() -> Seq<int> {
    seq![0, 2, 1, 1, 2, 3, 2, 4, 3, 3, 4, 5]
}

/// The rotation placing wedge `k`: rotate around the stem axis by `k`
/// full steps, about `start`.
pub open spec fn spec_cyl_rot(start: Vec3, end: Vec3, facets: u32, k: int) -> Mat4 {
    let axis = spec_cyl_axis(start, end);
    let rot_angle = fx_div_int(FX_TWO_PI as int, facets as int);
    spec_mat_mul(
        spec_mat_mul(
            spec_from_translation(start),
            spec_axis_angle(axis, fx_mul_int(rot_angle, k)),
        ),
        spec_from_translation(crate::vecmat::spec_v3_neg(start)),
    )
}

/// The vertices of the first `k` wedges, twelve per wedge.
pub open spec fn spec_cylinder_verts(
    start: Vec3,
    end: Vec3,
    facets: u32,
    radius: Fx,
    k: nat,
) -> Seq<Vertex>
    decreases k,
{
    if k == 0 {
        Seq::empty()
    } else {
        spec_cylinder_verts(start, end, facets, radius, (k - 1) as nat) + spec_cyl_facet(
            start,
            end,
            facets,
            radius,
            k - 1,
        )
    }
}

/// The twelve vertices of wedge `k`.
pub open spec fn spec_cyl_facet(start: Vec3, end: Vec3, facets: u32, radius: Fx, k: int) -> Seq<
    Vertex,
> {
    let base = spec_cyl_base_points(start, end, facets, radius);
    let rot = spec_cyl_rot(start, end, facets, k);
    Seq::new(
        12,
        |i: int| spec_pos_only(spec_transform_point(rot, base[spec_cyl_base_indices()[i]])),
    )
}

/// An index array that just counts its vertices.
pub open spec fn identity_indices(n: int) -> Seq<u32> {
    Seq::new(n as nat, |i: int| i as u32)
}

/// A cylinder's lateral surface between two stem points: `facets`
/// wedges of two staggered triangles each. Fewer than two facets yield
/// an empty mesh — the degenerate-input policy, not an error.
pub fn cylinder(start: Vec3, end: Vec3, facets: u32, radius: Fx) -> (mesh: VertexIndexMesh)
    requires
        12 * (facets as int) < 0xFFFF_FFFF,
    ensures
        mesh.primtype == PrimitiveType::TrianglesList,
        facets < 2 ==> mesh.vertices@.len() == 0 && mesh.indices@.len() == 0,
        facets >= 2 ==> mesh.vertices@ == spec_cylinder_verts(
            start,
            end,
            facets,
            radius,
            facets as nat,
        ),
        mesh.indices@ == identity_indices(mesh.vertices@.len() as int),
        mesh.vertices@.len() == if facets < 2 { 0int } else { 12 * facets as int },
{
    let mut mesh = VertexIndexMesh::new(PrimitiveType::TrianglesList);
    if facets < 2 {
        proof {
            assert(mesh.indices@ =~= identity_indices(mesh.vertices@.len() as int));
        }
        return mesh;
    }
    let axis = end.sub(start).normalize();
    let x_unit = crate::math::x_axis();
    let cross_vec = if axis == x_unit {
        y_axis()
    } else {
        x_unit
    };
    let perp_vec = axis.cross(cross_vec).normalize_to(radius);
    let rot_angle = Fx::from_bits(FX_TWO_PI).div_int(facets as i64);
    let offset_angle = rot_angle.div_int(2);
    let half_step = Mat4::from_axis_angle(axis, offset_angle);
    let full_step = Mat4::from_axis_angle(axis, rot_angle);
    let one_and_one_half_step = Mat4::from_axis_angle(axis, rot_angle.add(offset_angle));
    let base_point = start.add(perp_vec);
    let top_point = end.add(half_step.transform_vector(perp_vec));
    let next_point = start.add(full_step.transform_vector(perp_vec));
    let top_next_point = end.add(one_and_one_half_step.transform_vector(perp_vec));
    let base_struct = vec![start, base_point, next_point, top_point, top_next_point, end];
    let base_indices: Vec<usize> = vec![0, 2, 1, 1, 2, 3, 2, 4, 3, 3, 4, 5];
    proof {
        assert(base_struct@ =~= spec_cyl_base_points(start, end, facets, radius));
        assert forall|i: int| 0 <= i < 12 implies base_indices@[i] as int
            == spec_cyl_base_indices()[i] by {}
    }
    let mut base_num: u32 = 0;
    while base_num < facets
        invariant
            base_num <= facets,
            12 * (facets as int) < 0xFFFF_FFFF,
            base_struct@ == spec_cyl_base_points(start, end, facets, radius),
            base_indices@.len() == 12,
            forall|i: int| 0 <= i < 12 ==> 0 <= #[trigger] base_indices@[i] < 6,
            forall|i: int| 0 <= i < 12 ==> base_indices@[i] as int == spec_cyl_base_indices()[i],
            rot_angle@ == fx_div_int(FX_TWO_PI as int, facets as int),
            axis == spec_cyl_axis(start, end),
            facets >= 2,
            mesh.primtype == PrimitiveType::TrianglesList,
            mesh.vertices@ == spec_cylinder_verts(start, end, facets, radius, base_num as nat),
            mesh.vertices@.len() == 12 * base_num as int,
            mesh.indices@ == identity_indices(mesh.vertices@.len() as int),
        decreases facets - base_num,
    {
        let angle = rot_angle.mul_int(base_num as i64);
        let back = start.neg();
        let rot_matrix = Mat4::from_translation(start).mul(&Mat4::from_axis_angle(axis, angle)).mul(
            &Mat4::from_translation(back),
        );
        proof {
            assert(rot_matrix == spec_cyl_rot(start, end, facets, base_num as int));
        }
        let rotated = transform_points(&base_struct, rot_matrix);
        let ghost before = mesh.vertices@;
        let mut j: usize = 0;
        while j < 12
            invariant
                j <= 12,
                12 * (facets as int) < 0xFFFF_FFFF,
                base_num < facets,
                rotated@ == spec_cyl_base_points(start, end, facets, radius).map_values(
                    |p: Vec3| spec_transform_point(
                        spec_cyl_rot(start, end, facets, base_num as int),
                        p,
                    ),
                ),
                base_indices@.len() == 12,
                forall|i: int| 0 <= i < 12 ==> 0 <= #[trigger] base_indices@[i] < 6,
                forall|i: int|
                    0 <= i < 12 ==> base_indices@[i] as int == spec_cyl_base_indices()[i],
                mesh.primtype == PrimitiveType::TrianglesList,
                before.len() == 12 * base_num as int,
                mesh.vertices@ == before + spec_cyl_facet(
                    start,
                    end,
                    facets,
                    radius,
                    base_num as int,
                ).take(j as int),
                mesh.indices@ == identity_indices(mesh.vertices@.len() as int),
            decreases 12 - j,
        {
            let idx = base_indices[j];
            let vert = Vertex::pos_only(rotated[idx]);
            proof {
                assert(spec_cyl_base_points(start, end, facets, radius).len() == 6);
                assert(spec_cyl_facet(start, end, facets, radius, base_num as int)[j as int]
                    == vert);
            }
            mesh.add_vertex(vert);
            proof {
                assert(mesh.vertices@ =~= before + spec_cyl_facet(
                    start,
                    end,
                    facets,
                    radius,
                    base_num as int,
                ).take(j as int + 1));
                assert(mesh.indices@ =~= identity_indices(mesh.vertices@.len() as int));
            }
            j += 1;
        }
        proof {
            assert(spec_cyl_facet(start, end, facets, radius, base_num as int).take(12)
                =~= spec_cyl_facet(start, end, facets, radius, base_num as int));
            assert(mesh.vertices@ == spec_cylinder_verts(
                start,
                end,
                facets,
                radius,
                (base_num + 1) as nat,
            ));
        }
        base_num += 1;
    }
    mesh
}

/// The color of tree bark with random jitter: a red value between 25
/// and 70, green and blue derived from it by random ratios, all scaled
/// into unit range, with full opacity.
pub open spec fn is_bark_color(c: Vec4) -> bool {
    exists|red: int, rg: int, rb: int|
        #![trigger bark_color(red, rg, rb)]
        25 * FX_SCALE as int <= red <= 70 * FX_SCALE as int && fx_div_int(
            29 * FX_SCALE as int,
            20,
        ) <= rg <= fx_div_int(33 * FX_SCALE as int, 20) && 3 * FX_SCALE as int <= rb <= fx_div_int(
            17 * FX_SCALE as int,
            5,
        ) && c == bark_color(red, rg, rb)
}

/// The bark color for a red value and the green and blue ratios.
pub open spec fn bark_color(red: int, rg: int, rb: int) -> Vec4 {
    spec_v4(
        fx_div_int(red, 255),
        fx_div_int(crate::fixed::fx_div(red, rg), 255),
        fx_div_int(crate::fixed::fx_div(red, rb), 255),
        FX_SCALE as int,
    )
}

/// One random bark color.
fn random_bark_color() -> (c: Vec4)
    ensures
        is_bark_color(c),
{
    let redval = random_lohi(Fx::from_int(25), Fx::from_int(70));
    let ratio_grn = random_lohi(Fx::from_int(29).div_int(20), Fx::from_int(33).div_int(20));
    let ratio_blu = random_lohi(Fx::from_int(3), Fx::from_int(17).div_int(5));
    let c = Vec4 {
        x: redval.div_int(255),
        y: redval.div(ratio_grn).div_int(255),
        z: redval.div(ratio_blu).div_int(255),
        w: Fx::one(),
    };
    proof {
        assert(c == bark_color(redval@, ratio_grn@, ratio_blu@));
    }
    c
}

/// A branch body: the cylinder between the two stem points, each
/// triangle painted in a random bark color. Positions and indices are
/// exactly the cylinder's; only the colors vary run to run.
pub fn generate_branch(start: Vec3, end: Vec3, facets: u32, radius: Fx) -> (mesh: VertexIndexMesh)
    requires
        12 * (facets as int) < 0xFFFF_FFFF,
    ensures
        mesh.primtype == PrimitiveType::TrianglesList,
        mesh.indices@ == identity_indices(mesh.vertices@.len() as int),
        mesh.vertices@.len() == if facets < 2 { 0int } else { 12 * facets as int },
        forall|j: int|
            0 <= j < mesh.vertices@.len() ==> (#[trigger] mesh.vertices@[j]).a_pos
                == spec_cylinder_verts(start, end, facets, radius, facets as nat)[j].a_pos,
        forall|j: int| 0 <= j < mesh.vertices@.len() ==> is_bark_color(
            (#[trigger] mesh.vertices@[j]).a_color,
        ),
{
    let branch_body = cylinder(start, end, facets, radius);
    let ghost cyl_verts = branch_body.vertices@;
    let tri_count = branch_body.indices.len() / 3;
    let mut colors: Vec<Vec4> = Vec::new();
    let mut t: usize = 0;
    while t < tri_count
        invariant
            t <= tri_count,
            colors@.len() == t,
            forall|i: int| 0 <= i < t ==> is_bark_color(#[trigger] colors@[i]),
        decreases tri_count - t,
    {
        let c = random_bark_color();
        colors.push(c);
        t += 1;
    }
    proof {
        assert(indices_in_bounds(branch_body.indices@, branch_body.vertices@.len() as int));
    }
    let mesh = assign_colors(branch_body, &colors);
    proof {
        let n = (cyl_verts.len() / 3) as nat;
        crate::vertex_index_mesh::lemma_assign_colors_len(
            cyl_verts,
            identity_indices(cyl_verts.len() as int),
            colors@,
            n,
        );
        assert forall|j: int| 0 <= j < mesh.vertices@.len() implies (#[trigger] mesh.vertices@[j]).a_pos
            == cyl_verts[j].a_pos by {
            crate::vertex_index_mesh::lemma_assign_colors_preserves_rest(
                cyl_verts,
                identity_indices(cyl_verts.len() as int),
                colors@,
                n,
                j,
            );
        }
        assert forall|j: int| 0 <= j < mesh.vertices@.len() implies is_bark_color(
            (#[trigger] mesh.vertices@[j]).a_color,
        ) by {
            assert(3 * (cyl_verts.len() / 3) == cyl_verts.len());
            lemma_identity_assign_colors(cyl_verts, colors@, n, j);
            assert(is_bark_color(colors@[j / 3]));
        }
    }
    mesh
}

/// With a self-counting index array, coloring paints vertex `j` with
/// the color of its own triangle, `j / 3`.
pub proof fn lemma_identity_assign_colors(vs: Seq<Vertex>, colors: Seq<Vec4>, t: nat, j: int)
    requires
        0 <= j < 3 * t,
        3 * t <= vs.len(),
        vs.len() <= 0xFFFF_FFFF,
    ensures
        spec_assign_colors(vs, identity_indices(vs.len() as int), colors, t)[j].a_color
            == colors[j / 3],
    decreases t,
{
    let idx = identity_indices(vs.len() as int);
    assert(indices_in_bounds(idx, vs.len() as int));
    crate::vertex_index_mesh::lemma_assign_colors_len(vs, idx, colors, (t - 1) as nat);
    let prev = spec_assign_colors(vs, idx, colors, (t - 1) as nat);
    if j < 3 * (t - 1) {
        lemma_identity_assign_colors(vs, colors, (t - 1) as nat, j);
        assert(idx[3 * (t - 1)] as int == 3 * (t - 1));
        assert(idx[3 * (t - 1) + 1] as int == 3 * (t - 1) + 1);
        assert(idx[3 * (t - 1) + 2] as int == 3 * (t - 1) + 2);
    } else {
        assert(j / 3 == t - 1);
    }
}

/// A cylinder has twelve vertices per wedge.
pub proof fn lemma_cylinder_verts_len(start: Vec3, end: Vec3, facets: u32, radius: Fx, k: nat)
    ensures
        spec_cylinder_verts(start, end, facets, radius, k).len() == 12 * k,
    decreases k,
{
    if k > 0 {
        lemma_cylinder_verts_len(start, end, facets, radius, (k - 1) as nat);
    }
}

/// The translation one step of length `l` along the base heading, the
/// positive y axis.
pub open spec fn spec_heading_translation(l: int) -> Mat4 {
    spec_from_translation(spec_v3_scale(spec_v3(0, FX_SCALE as int, 0), l))
}

/// The turtle's position under a transform: the transformed origin.
pub open spec fn spec_walk_origin(m: Mat4) -> Vec3 {
    spec_transform_point(m, spec_v3(0, 0, 0))
}

/// Two points in the zero color, the line walker's step of colors.
pub open spec fn two_zero_colors() -> Seq<Vec4> {
    seq![spec_v4(0, 0, 0, 0), spec_v4(0, 0, 0, 0)]
}

/// The doubling append of the line mesh: the previous point repeated,
/// then the new point; a first point is doubled itself.
pub open spec fn spec_line_append(points: Seq<Vec3>, p: Vec3) -> Seq<Vec3> {
    if points.len() > 0 {
        points + seq![points.last(), p]
    } else {
        seq![p, p]
    }
}

/// The line walker's state: the turtle plus the polyline so far.
pub struct LineWalk {
    pub mat: Mat4,
    pub stack: Seq<Mat4>,
    pub points: Seq<Vec3>,
    pub colors: Seq<Vec4>,
}

/// One line-walker step for one module.
pub open spec fn spec_line_step(st: LineWalk, m: Module) -> LineWalk {
    match spec_to_draw_command(m) {
        DrawCommand::Foliage { .. } => st,
        DrawCommand::Segment { w: _, l } => {
            let mat2 = spec_mat_mul(spec_heading_translation(l@), st.mat);
            let origin = spec_walk_origin(mat2);
            LineWalk {
                mat: mat2,
                stack: st.stack,
                points: spec_line_append(st.points, origin),
                colors: st.colors + two_zero_colors(),
            }
        },
        DrawCommand::Forward { d } => {
            let mat2 = spec_mat_mul(spec_heading_translation(d@), st.mat);
            let origin = spec_walk_origin(mat2);
            LineWalk {
                mat: mat2,
                stack: st.stack,
                points: st.points + seq![origin, origin],
                colors: st.colors + two_zero_colors(),
            }
        },
        DrawCommand::Roll { r } => LineWalk {
            mat: spec_mat_mul(spec_rot_z(r@), st.mat),
            stack: st.stack,
            points: st.points,
            colors: st.colors,
        },
        DrawCommand::Pitch { r } => LineWalk {
            mat: spec_mat_mul(spec_rot_x(r@), st.mat),
            stack: st.stack,
            points: st.points,
            colors: st.colors,
        },
        DrawCommand::Yaw { r } => LineWalk {
            mat: spec_mat_mul(spec_rot_y(r@), st.mat),
            stack: st.stack,
            points: st.points,
            colors: st.colors,
        },
        DrawCommand::Euler { x, y, z } => LineWalk {
            mat: spec_mat_mul(spec_euler_mat(x@, y@, z@), st.mat),
            stack: st.stack,
            points: st.points,
            colors: st.colors,
        },
        DrawCommand::Push => {
            let origin = spec_walk_origin(st.mat);
            LineWalk {
                mat: st.mat,
                stack: st.stack.push(st.mat),
                points: st.points + seq![origin, origin],
                colors: st.colors + two_zero_colors(),
            }
        },
        DrawCommand::Pop => {
            let popped = spec_stack_pop(st.mat, st.stack);
            let origin = spec_walk_origin(popped.0);
            LineWalk {
                mat: popped.0,
                stack: popped.1,
                points: st.points + seq![origin, origin],
                colors: st.colors + two_zero_colors(),
            }
        },
        DrawCommand::Idle => st,
    }
}

/// The line walker folded over a word, left to right.
pub open spec fn spec_line_walk(word: Seq<Module>, st: LineWalk) -> LineWalk
    decreases word.len(),
{
    if word.len() == 0 {
        st
    } else {
        spec_line_walk(word.skip(1), spec_line_step(st, word[0]))
    }
}

/// A fresh line walker: identity turtle, the doubled origin point.
pub open spec fn spec_initial_line_walk() -> LineWalk {
    LineWalk {
        mat: spec_identity(),
        stack: Seq::empty(),
        points: seq![spec_v3(0, 0, 0), spec_v3(0, 0, 0)],
        colors: two_zero_colors(),
    }
}

/// The full line interpretation of a word.
pub open spec fn spec_ls_to_lines(word: Seq<Module>) -> LineWalk {
    spec_line_walk(word, spec_initial_line_walk())
}

/// Interpret a word as a line skeleton: every segment extends the
/// stroke, forward moves and branch push/pops lift the pen, rotations
/// steer, foliage draws nothing.
pub fn ls_to_lines(word: &Vec<Module>) -> (line: LineMesh)
    ensures
        line.points@ == spec_ls_to_lines(word@).points,
        line.colors@ == spec_ls_to_lines(word@).colors,
        line.color == spec_v4(0, 0, 0, 0),
{
    let mut line = LineMesh::new();
    let mut mat_stack = MatrixStack::new();
    line.append_point(Vec3::zero());
    proof {
        assert(line.points@ =~= spec_initial_line_walk().points);
        assert(line.colors@ =~= spec_initial_line_walk().colors);
        assert(word@.skip(0) =~= word@);
    }
    let n = word.len();
    let mut i: usize = 0;
    while i < n
        invariant
            i <= n,
            n == word@.len(),
            line.color == spec_v4(0, 0, 0, 0),
            spec_line_walk(
                word@.skip(i as int),
                LineWalk {
                    mat: mat_stack.current,
                    stack: mat_stack.stack@,
                    points: line.points@,
                    colors: line.colors@,
                },
            ) == spec_ls_to_lines(word@),
        decreases n - i,
    {
        let ghost st = LineWalk {
            mat: mat_stack.current,
            stack: mat_stack.stack@,
            points: line.points@,
            colors: line.colors@,
        };
        let m = word[i];
        match m.to_draw_command() {
            DrawCommand::Foliage { .. } => {},
            DrawCommand::Segment { w: _, l: length } => {
                mat_stack.transform(Mat4::from_translation(y_axis().scale(length)));
                let o = mat_stack.origin();
                line.append_point(o);
            },
            DrawCommand::Forward { d: distance } => {
                mat_stack.transform(Mat4::from_translation(y_axis().scale(distance)));
                let o = mat_stack.origin();
                line.move_to(o);
            },
            DrawCommand::Roll { r } => {
                mat_stack.rotate(Mat4::from_angle_z(r));
            },
            DrawCommand::Pitch { r } => {
                mat_stack.rotate(Mat4::from_angle_x(r));
            },
            DrawCommand::Yaw { r } => {
                mat_stack.rotate(Mat4::from_angle_y(r));
            },
            DrawCommand::Euler { x, y, z } => {
                mat_stack.rotate(Mat4::from_euler(x, y, z));
            },
            DrawCommand::Push => {
                mat_stack.push();
                let o = mat_stack.origin();
                line.move_to(o);
            },
            DrawCommand::Pop => {
                mat_stack.pop();
                let o = mat_stack.origin();
                line.move_to(o);
            },
            DrawCommand::Idle => {},
        }
        proof {
            let st2 = LineWalk {
                mat: mat_stack.current,
                stack: mat_stack.stack@,
                points: line.points@,
                colors: line.colors@,
            };
            assert(word@.skip(i as int)[0] == word@[i as int]);
            assert(word@.skip(i as int).skip(1) =~= word@.skip(i as int + 1));
            assert(st2 == spec_line_step(st, word@[i as int]));
        }
        i += 1;
    }
    proof {
        assert(word@.skip(n as int) =~= Seq::<Module>::empty());
    }
    line
}

/// Where a foliage blob is to grow: the turtle positions at the start
/// and end of the foliage command, and the blob's radius.
#[derive(Clone, Copy, Debug, PartialEq, Eq, Structural)]
pub struct FoliageRequest {
    pub start: Vec3,
    pub end: Vec3,
    pub radius: Fx,
}

/// The positions of a full branch cylinder.
pub open spec fn spec_cylinder_positions(start: Vec3, end: Vec3, facets: u32, radius: Fx) -> Seq<
    Vec3,
> {
    spec_cylinder_verts(start, end, facets, radius, facets as nat).map_values(
        |v: Vertex| v.a_pos,
    )
}

/// The solid walker's state: the turtle, the vertex positions emitted
/// so far, and the foliage requests recorded so far.
pub struct SolidWalk {
    pub mat: Mat4,
    pub stack: Seq<Mat4>,
    pub positions: Seq<Vec3>,
    pub requests: Seq<FoliageRequest>,
}

/// One solid-walker step for one module.
pub open spec fn spec_solid_step(st: SolidWalk, m: Module) -> SolidWalk {
    match spec_to_draw_command(m) {
        DrawCommand::Foliage { r, l } => {
            let start = spec_walk_origin(st.mat);
            let mat2 = spec_mat_mul(spec_heading_translation(l@), st.mat);
            let end = spec_walk_origin(mat2);
            SolidWalk {
                mat: mat2,
                stack: st.stack,
                positions: st.positions,
                requests: st.requests.push(FoliageRequest { start, end, radius: r }),
            }
        },
        DrawCommand::Segment { w, l } => {
            let start = spec_walk_origin(st.mat);
            let mat2 = spec_mat_mul(spec_heading_translation(l@), st.mat);
            let end = spec_walk_origin(mat2);
            SolidWalk {
                mat: mat2,
                stack: st.stack,
                positions: st.positions + spec_cylinder_positions(
                    start,
                    end,
                    8u32,
                    fxb(fx_div_int(w@, 2)),
                ),
                requests: st.requests,
            }
        },
        DrawCommand::Forward { d } => SolidWalk {
            mat: spec_mat_mul(spec_heading_translation(d@), st.mat),
            stack: st.stack,
            positions: st.positions,
            requests: st.requests,
        },
        DrawCommand::Roll { r } => SolidWalk {
            mat: spec_mat_mul(spec_rot_z(r@), st.mat),
            stack: st.stack,
            positions: st.positions,
            requests: st.requests,
        },
        DrawCommand::Pitch { r } => SolidWalk {
            mat: spec_mat_mul(spec_rot_x(r@), st.mat),
            stack: st.stack,
            positions: st.positions,
            requests: st.requests,
        },
        DrawCommand::Yaw { r } => SolidWalk {
            mat: spec_mat_mul(spec_rot_y(r@), st.mat),
            stack: st.stack,
            positions: st.positions,
            requests: st.requests,
        },
        DrawCommand::Euler { x, y, z } => SolidWalk {
            mat: spec_mat_mul(spec_euler_mat(x@, y@, z@), st.mat),
            stack: st.stack,
            positions: st.positions,
            requests: st.requests,
        },
        DrawCommand::Push => SolidWalk {
            mat: st.mat,
            stack: st.stack.push(st.mat),
            positions: st.positions,
            requests: st.requests,
        },
        DrawCommand::Pop => {
            let popped = spec_stack_pop(st.mat, st.stack);
            SolidWalk {
                mat: popped.0,
                stack: popped.1,
                positions: st.positions,
                requests: st.requests,
            }
        },
        DrawCommand::Idle => st,
    }
}

/// The solid walker folded over a word, left to right.
pub open spec fn spec_solid_walk(word: Seq<Module>, st: SolidWalk) -> SolidWalk
    decreases word.len(),
{
    if word.len() == 0 {
        st
    } else {
        spec_solid_walk(word.skip(1), spec_solid_step(st, word[0]))
    }
}

/// A fresh solid walker.
pub open spec fn spec_initial_solid_walk() -> SolidWalk {
    SolidWalk {
        mat: spec_identity(),
        stack: Seq::empty(),
        positions: Seq::empty(),
        requests: Seq::empty(),
    }
}

/// The full solid interpretation of a word.
pub open spec fn spec_ls_to_cylinders(word: Seq<Module>) -> SolidWalk {
    spec_solid_walk(word, spec_initial_solid_walk())
}

/// Interpret a word as a solid mesh: a bark-colored eight-facet
/// cylinder per branch segment, merged in order, plus one recorded
/// foliage request per foliage command; vertex normals are recomputed
/// once at the end. The vertex positions, the requests and the bark
/// coloring are pinned exactly; only which bark shade each triangle
/// drew varies run to run.
pub fn ls_to_cylinders(word: &Vec<Module>) -> (out: (VertexIndexMesh, Vec<FoliageRequest>))
    requires
        word@.len() <= 0x40_0000,
    ensures
        ({
            let walk = spec_ls_to_cylinders(word@);
            &&& out.0.primtype == PrimitiveType::TrianglesList
            &&& out.0.indices@ == identity_indices(out.0.vertices@.len() as int)
            &&& out.0.vertices@.map_values(|v: Vertex| v.a_pos) == walk.positions
            &&& forall|j: int|
                0 <= j < out.0.vertices@.len() ==> is_bark_color(
                    (#[trigger] out.0.vertices@[j]).a_color,
                )
            &&& out.1@ == walk.requests
        }),
{
    let mut mesh = VertexIndexMesh::new(PrimitiveType::TrianglesList);
    let mut requests: Vec<FoliageRequest> = Vec::new();
    let mut mat_stack = MatrixStack::new();
    proof {
        assert(word@.skip(0) =~= word@);
        assert(mesh.vertices@.map_values(|v: Vertex| v.a_pos) =~= Seq::<Vec3>::empty());
        assert(mesh.indices@ =~= identity_indices(0));
    }
    let n = word.len();
    let mut i: usize = 0;
    while i < n
        invariant
            i <= n,
            n == word@.len(),
            n <= 0x40_0000,
            mesh.primtype == PrimitiveType::TrianglesList,
            mesh.vertices@.len() <= 96 * i,
            mesh.indices@ == identity_indices(mesh.vertices@.len() as int),
            forall|j: int|
                0 <= j < mesh.vertices@.len() ==> is_bark_color(
                    (#[trigger] mesh.vertices@[j]).a_color,
                ),
            spec_solid_walk(
                word@.skip(i as int),
                SolidWalk {
                    mat: mat_stack.current,
                    stack: mat_stack.stack@,
                    positions: mesh.vertices@.map_values(|v: Vertex| v.a_pos),
                    requests: requests@,
                },
            ) == spec_ls_to_cylinders(word@),
        decreases n - i,
    {
        let ghost st = SolidWalk {
            mat: mat_stack.current,
            stack: mat_stack.stack@,
            positions: mesh.vertices@.map_values(|v: Vertex| v.a_pos),
            requests: requests@,
        };
        let m = word[i];
        match m.to_draw_command() {
            DrawCommand::Foliage { l: length, r: radius } => {
                let start = mat_stack.origin();
                mat_stack.transform(Mat4::from_translation(y_axis().scale(length)));
                let end = mat_stack.origin();
                requests.push(FoliageRequest { start, end, radius });
            },
            DrawCommand::Segment { w: width, l: length } => {
                let start = mat_stack.origin();
                mat_stack.transform(Mat4::from_translation(y_axis().scale(length)));
                let end = mat_stack.origin();
                let branch_body = generate_branch(start, end, 8, width.div_int(2));
                proof {
                    assert(indices_in_bounds(
                        branch_body.indices@,
                        branch_body.vertices@.len() as int,
                    ));
                }
                let ghost before = mesh.vertices@;
                let ghost before_idx = mesh.indices@;
                mesh.extend_with(&branch_body);
                proof {
                    let ghost half_width = fxb(fx_div_int(width@, 2));
                    assert(mesh.vertices@.map_values(|v: Vertex| v.a_pos) =~= before.map_values(
                        |v: Vertex| v.a_pos,
                    ) + branch_body.vertices@.map_values(|v: Vertex| v.a_pos));
                    lemma_cylinder_verts_len(start, end, 8u32, half_width, 8nat);
                    assert(branch_body.vertices@.map_values(|v: Vertex| v.a_pos)
                        =~= spec_cylinder_positions(start, end, 8u32, half_width));
                    assert forall|k: int| 0 <= k < mesh.indices@.len() implies mesh.indices@[k]
                        == (k as u32) by {
                        if k < before_idx.len() {
                            assert(mesh.indices@[k] == before_idx[k]);
                        } else {
                            let j = k - before_idx.len();
                            assert(mesh.indices@[before_idx.len() + j] == branch_body.indices@[j]
                                + before.len());
                            assert(branch_body.indices@[j] == j as u32);
                        }
                    }
                    assert(mesh.indices@ =~= identity_indices(mesh.vertices@.len() as int));
                    assert forall|j: int| 0 <= j < mesh.vertices@.len() implies is_bark_color(
                        (#[trigger] mesh.vertices@[j]).a_color,
                    ) by {
                        if j < before.len() {
                            assert(mesh.vertices@[j] == before[j]);
                        } else {
                            assert(mesh.vertices@[j] == branch_body.vertices@[j - before.len()]);
                        }
                    }
                }
            },
            DrawCommand::Forward { d: distance } => {
                mat_stack.transform(Mat4::from_translation(y_axis().scale(distance)));
            },
            DrawCommand::Pitch { r } => {
                mat_stack.rotate(Mat4::from_angle_x(r));
            },
            DrawCommand::Yaw { r } => {
                mat_stack.rotate(Mat4::from_angle_y(r));
            },
            DrawCommand::Roll { r } => {
                mat_stack.rotate(Mat4::from_angle_z(r));
            },
            DrawCommand::Euler { x, y, z } => {
                mat_stack.rotate(Mat4::from_euler(x, y, z));
            },
            DrawCommand::Push => {
                mat_stack.push();
            },
            DrawCommand::Pop => {
                mat_stack.pop();
            },
            DrawCommand::Idle => {},
        }
        proof {
            let st2 = SolidWalk {
                mat: mat_stack.current,
                stack: mat_stack.stack@,
                positions: mesh.vertices@.map_values(|v: Vertex| v.a_pos),
                requests: requests@,
            };
            assert(word@.skip(i as int)[0] == word@[i as int]);
            assert(word@.skip(i as int).skip(1) =~= word@.skip(i as int + 1));
            assert(st2 == spec_solid_step(st, word@[i as int]));
        }
        i += 1;
    }
    proof {
        assert(word@.skip(n as int) =~= Seq::<Module>::empty());
        assert(indices_in_bounds(mesh.indices@, mesh.vertices@.len() as int));
    }
    let ghost pre = mesh.vertices@;
    mesh.recompute_normals();
    proof {
        assert forall|j: int| 0 <= j < mesh.vertices@.len() implies (
        #[trigger] mesh.vertices@[j]).a_pos == pre[j].a_pos && is_bark_color(
            mesh.vertices@[j].a_color,
        ) by {
            crate::vertex_index_mesh::lemma_recompute_preserves_rest(
                pre,
                identity_indices(pre.len() as int),
                j,
            );
        }
        assert(mesh.vertices@.map_values(|v: Vertex| v.a_pos) =~= pre.map_values(
            |v: Vertex| v.a_pos,
        ));
    }
    (mesh, requests)
}

/// The point is a sphere sample moved to sit around `start`.
pub open spec fn translated_sphere_sample(p: Vec3, start: Vec3, radius: int) -> bool {
    exists|q: Vec3|
        #![trigger spec_transform_point(spec_from_translation(start), q)]
        crate::rand_util::in_sphere_sample(q, radius) && p == spec_transform_point(
            spec_from_translation(start),
            q,
        )
}

/// The candidate foliage cloud for one request: two hundred random
/// points in a sphere of the given radius, deduplicated and moved to
/// the request's start point. A convex hull of this cloud, triangulated
/// into corner triples, becomes the blob's surface.
pub fn foliage_cloud(start: Vec3, radius: Fx) -> (points: Vec<Vec3>)
    requires
        radius@ >= 0,
    ensures
        points@.len() <= 200,
        forall|j: int|
            0 <= j < points@.len() ==> translated_sphere_sample(
                #[trigger] points@[j],
                start,
                radius@,
            ),
{
    let pts = crate::rand_util::rand_points_in_sphere(200, radius);
    let translation = Mat4::from_translation(start);
    let moved = transform_points(&pts, translation);
    proof {
        assert forall|j: int| 0 <= j < moved@.len() implies translated_sphere_sample(
            #[trigger] moved@[j],
            start,
            radius@,
        ) by {
            assert(moved@[j] == spec_transform_point(spec_from_translation(start), pts@[j]));
        }
    }
    moved
}

/// The foliage color: a flat leaf green with full opacity.
pub open spec fn foliage_green() -> Vec4 {
    spec_v4(
        fx_div_int(62 * FX_SCALE as int, 255),
        fx_div_int(117 * FX_SCALE as int, 255),
        fx_div_int(31 * FX_SCALE as int, 255),
        FX_SCALE as int,
    )
}

/// A foliage blob mesh from triangulated hull corners: one green
/// vertex per corner, indexed in order.
pub fn foliage_mesh(corners: &Vec<Vec3>) -> (mesh: VertexIndexMesh)
    requires
        corners@.len() < 0xFFFF_FFFF,
    ensures
        mesh.primtype == PrimitiveType::TrianglesList,
        mesh.indices@ == identity_indices(mesh.vertices@.len() as int),
        mesh.vertices@ == corners@.map_values(
            |p: Vec3| crate::vertex::with_color(spec_pos_only(p), foliage_green()),
        ),
{
    let green = Vec4 {
        x: Fx::from_int(62).div_int(255),
        y: Fx::from_int(117).div_int(255),
        z: Fx::from_int(31).div_int(255),
        w: Fx::one(),
    };
    let mut mesh = VertexIndexMesh::new(PrimitiveType::TrianglesList);
    let n = corners.len();
    let mut i: usize = 0;
    proof {
        assert(mesh.vertices@ =~= corners@.take(0).map_values(
            |p: Vec3| crate::vertex::with_color(spec_pos_only(p), foliage_green()),
        ));
        assert(mesh.indices@ =~= identity_indices(0));
    }
    while i < n
        invariant
            i <= n,
            n == corners@.len(),
            n < 0xFFFF_FFFF,
            green == foliage_green(),
            mesh.primtype == PrimitiveType::TrianglesList,
            mesh.vertices@.len() == i,
            mesh.indices@ == identity_indices(mesh.vertices@.len() as int),
            mesh.vertices@ == corners@.take(i as int).map_values(
                |p: Vec3| crate::vertex::with_color(spec_pos_only(p), foliage_green()),
            ),
        decreases n - i,
    {
        let p = corners[i];
        mesh.add_vertex(Vertex::pos_and_color(p, green));
        proof {
            assert(mesh.vertices@ =~= corners@.take(i as int + 1).map_values(
                |pp: Vec3| crate::vertex::with_color(spec_pos_only(pp), foliage_green()),
            ));
            assert(mesh.indices@ =~= identity_indices(mesh.vertices@.len() as int));
        }
        i += 1;
    }
    proof {
        assert(corners@.take(n as int) =~= corners@);
    }
    mesh
}

/// The vertex arrays of a list of meshes.
pub open spec fn spec_mesh_verts(blobs: Seq<VertexIndexMesh>) -> Seq<Seq<Vertex>> {
    blobs.map_values(|b: VertexIndexMesh| b.vertices@)
}

/// Merge the foliage blob meshes into the trunk-and-branch mesh, in
/// order, and recompute the combined mesh's normals: the vertices are
/// the mesh's followed by every blob's, run through the normal
/// recompute over the combined (self-counting) index array.
pub fn attach_foliage(mesh: VertexIndexMesh, blobs: &Vec<VertexIndexMesh>) -> (out:
    VertexIndexMesh)
    requires
        mesh.indices@ == identity_indices(mesh.vertices@.len() as int),
        forall|b: int|
            0 <= b < blobs@.len() ==> (#[trigger] blobs@[b]).indices@ == identity_indices(
                blobs@[b].vertices@.len() as int,
            ),
        mesh.vertices@.len() + crate::lsystem::concat_all(spec_mesh_verts(blobs@)).len()
            <= 0xFFFF_FFFF,
    ensures
        out.primtype == mesh.primtype,
        out.vertices@ == crate::vertex_index_mesh::spec_recompute_normals(
            mesh.vertices@ + crate::lsystem::concat_all(spec_mesh_verts(blobs@)),
            identity_indices(
                mesh.vertices@.len() + crate::lsystem::concat_all(spec_mesh_verts(blobs@)).len()
                    as int,
            ),
        ),
        out.indices@ == identity_indices(out.vertices@.len() as int),
{
    let mut mesh = mesh;
    let ghost base = mesh.vertices@;
    let ghost base_primtype = mesh.primtype;
    let ghost all = spec_mesh_verts(blobs@);
    let nb = blobs.len();
    let mut b: usize = 0;
    proof {
        assert(all.take(0) =~= Seq::<Seq<Vertex>>::empty());
        assert(base + crate::lsystem::concat_all(all.take(0)) =~= base);
    }
    while b < nb
        invariant
            b <= nb,
            nb == blobs@.len(),
            all == spec_mesh_verts(blobs@),
            mesh.primtype == base_primtype,
            forall|bb: int|
                0 <= bb < blobs@.len() ==> (#[trigger] blobs@[bb]).indices@ == identity_indices(
                    blobs@[bb].vertices@.len() as int,
                ),
            base.len() + crate::lsystem::concat_all(all).len() <= 0xFFFF_FFFF,
            mesh.vertices@ == base + crate::lsystem::concat_all(all.take(b as int)),
            mesh.indices@ == identity_indices(mesh.vertices@.len() as int),
        decreases nb - b,
    {
        let ghost before = mesh.vertices@;
        let ghost before_idx = mesh.indices@;
        proof {
            assert(all.take(b as int).push(all[b as int]) =~= all.take(b as int + 1));
            crate::lsystem::lemma_concat_all_snoc(all.take(b as int), all[b as int]);
            assert(all.take(b as int + 1) + all.skip(b as int + 1) =~= all);
            crate::lsystem::lemma_concat_all_append(all.take(b as int + 1), all.skip(b as int + 1));
            assert(indices_in_bounds(blobs@[b as int].indices@, blobs@[b as int].vertices@.len() as int));
        }
        let blob = &blobs[b];
        mesh.extend_with(blob);
        proof {
            assert(mesh.vertices@ =~= base + crate::lsystem::concat_all(all.take(b as int + 1)));
            assert forall|k: int| 0 <= k < mesh.indices@.len() implies mesh.indices@[k]
                == (k as u32) by {
                if k < before_idx.len() {
                    assert(mesh.indices@[k] == before_idx[k]);
                } else {
                    let j = k - before_idx.len();
                    assert(mesh.indices@[before_idx.len() + j] == blobs@[b as int].indices@[j]
                        + before.len());
                    assert(blobs@[b as int].indices@[j] == j as u32);
                }
            }
            assert(mesh.indices@ =~= identity_indices(mesh.vertices@.len() as int));
        }
        b += 1;
    }
    proof {
        assert(all.take(nb as int) =~= all);
        assert(indices_in_bounds(mesh.indices@, mesh.vertices@.len() as int));
    }
    mesh.recompute_normals();
    mesh
}

} // verus!
