//! Fixed-point arithmetic, transforms, meshes and the turtle walkers.

use lsystem_trees::draw_helpers::{attach_foliage, cylinder, foliage_cloud, foliage_mesh,
    generate_branch, ls_to_cylinders, ls_to_lines, transform_points};
use lsystem_trees::fixed::{Fx, FX_HALF_PI, FX_PI, FX_SCALE};
use lsystem_trees::linemesh::LineMesh;
use lsystem_trees::lsystem::{branch, pitch, pop, push, trunk, Module};
use lsystem_trees::math::{x_axis, y_axis, z_axis};
use lsystem_trees::matrixstack::MatrixStack;
use lsystem_trees::rand_util::{deduplicate_points_list, rand_points_in_sphere, random_lohi,
    random_max};
use lsystem_trees::vecmat::{Mat4, Vec2, Vec3, Vec4};
use lsystem_trees::vertex::Vertex;
use lsystem_trees::vertex_index_mesh::{PrimitiveType, VertexIndexMesh};

fn fx(n: i64) -> Fx {
    Fx::from_int(n)
}

fn v3(x: i64, y: i64, z: i64) -> Vec3 {
    Vec3 { x: fx(x), y: fx(y), z: fx(z) }
}

#[test]
fn fixed_point_arithmetic_is_exact() {
    assert_eq!(fx(3).add(fx(4)), fx(7));
    assert_eq!(fx(3).sub(fx(4)), fx(-1));
    assert_eq!(fx(6).mul(fx(7)), fx(42));
    assert_eq!(fx(27).div_int(3), fx(9));
    assert_eq!(fx(100).mul_ratio(115, 100), fx(115));
    assert_eq!(fx(10).div(fx(4)), Fx::from_bits(FX_SCALE * 5 / 2));
    assert_eq!(fx(1).neg(), fx(-1));
}

#[test]
fn sixty_degrees_in_radians() {
    // 60 * 205887 / 180 divides exactly.
    assert_eq!(Fx::from_degrees(60).bits, 68629);
    assert_eq!(Fx::from_degrees(-120).bits, -137258);
    assert_eq!(fx(60).to_radians(), Fx::from_degrees(60));
}

#[test]
fn sine_and_cosine_values() {
    assert_eq!(Fx::from_bits(0).sin().bits, 0);
    let s = Fx::from_bits(FX_HALF_PI).sin().bits;
    assert!((s - FX_SCALE).abs() <= 16);
    let c = Fx::from_bits(0).cos().bits;
    assert!((c - FX_SCALE).abs() <= 16);
    let cpi = Fx::from_bits(FX_PI).cos().bits;
    assert!((cpi + FX_SCALE).abs() <= 16);
    let s30 = Fx::from_degrees(30).sin().bits;
    assert!((s30 - FX_SCALE / 2).abs() <= 16);
}

#[test]
fn normalize_scales_to_target_length() {
    let v = v3(3, 4, 0).normalize_to(fx(10));
    assert_eq!(v, v3(6, 8, 0));
    assert_eq!(v3(0, 0, 0).normalize(), v3(0, 0, 0));
    let u = v3(2, 0, 0).normalize();
    assert_eq!(u, v3(1, 0, 0));
}

#[test]
fn cross_and_dot_products() {
    assert_eq!(x_axis().cross(y_axis()), z_axis());
    assert_eq!(y_axis().cross(z_axis()), x_axis());
    assert_eq!(x_axis().dot(y_axis()).bits, 0);
    assert_eq!(x_axis().dot(x_axis()), fx(1));
}

#[test]
fn translation_moves_points_not_vectors() {
    let t = Mat4::from_translation(v3(1, 2, 3));
    assert_eq!(t.transform_point(v3(0, 0, 0)), v3(1, 2, 3));
    assert_eq!(t.transform_point(v3(1, 0, 0)), v3(2, 2, 3));
    assert_eq!(t.transform_vector(v3(1, 0, 0)), v3(1, 0, 0));
}

#[test]
fn rotation_about_z_quarter_turn() {
    let r = Mat4::from_angle_z(Fx::from_degrees(90));
    let moved = r.transform_vector(x_axis());
    assert!((moved.x.bits).abs() <= 16);
    assert!((moved.y.bits - FX_SCALE).abs() <= 16);
    assert_eq!(moved.z.bits, 0);
}

#[test]
fn matrix_stack_push_pop_restores_the_transform() {
    let mut ms = MatrixStack::new();
    ms.transform(Mat4::from_translation(v3(5, 0, 0)));
    ms.rotate(Mat4::from_angle_y(Fx::from_degrees(45)));
    let before = ms.get_matrix();
    ms.push();
    ms.transform(Mat4::from_translation(v3(0, 9, 0)));
    ms.rotate(Mat4::from_angle_x(Fx::from_degrees(30)));
    ms.rotate(Mat4::from_angle_z(Fx::from_degrees(-60)));
    ms.pop();
    assert_eq!(ms.get_matrix(), before);
}

#[test]
fn matrix_stack_pop_on_empty_resets_to_identity() {
    let mut ms = MatrixStack::new();
    ms.transform(Mat4::from_translation(v3(5, 0, 0)));
    let m = ms.pop();
    assert_eq!(m, Mat4::identity());
    assert_eq!(ms.get_matrix(), Mat4::identity());
}

#[test]
fn extend_with_offsets_indices() {
    let mut a = VertexIndexMesh::new(PrimitiveType::TrianglesList);
    a.add_point(v3(0, 0, 0));
    a.add_point(v3(1, 0, 0));
    let mut b = VertexIndexMesh::new(PrimitiveType::TrianglesList);
    b.add_point(v3(0, 1, 0));
    b.add_point(v3(0, 2, 0));
    b.add_point(v3(0, 3, 0));
    let b_indices = b.indices.clone();
    a.extend_with(&b);
    assert_eq!(a.vertices.len(), 5);
    assert_eq!(a.indices, vec![0, 1, 2, 3, 4]);
    for (i, &idx) in b_indices.iter().enumerate() {
        assert_eq!(a.indices[2 + i], idx + 2);
    }
    assert_eq!(a.vertices[2].pos(), v3(0, 1, 0));
}

#[test]
fn recompute_normals_gives_unit_normals() {
    let mut mesh = VertexIndexMesh::new(PrimitiveType::TrianglesList);
    mesh.add_point(v3(0, 0, 0));
    mesh.add_point(v3(1, 0, 0));
    mesh.add_point(v3(0, 1, 0));
    mesh.recompute_normals();
    for v in &mesh.vertices {
        let n = v.normal();
        assert_eq!(n.x.bits, 0);
        assert_eq!(n.y.bits, 0);
        let sq = n.x.bits * n.x.bits + n.y.bits * n.y.bits + n.z.bits * n.z.bits;
        let unit = FX_SCALE * FX_SCALE;
        assert!((sq - unit).abs() <= unit / 50);
    }
}

#[test]
fn recompute_normals_leaves_unreferenced_vertices_zero() {
    let mut mesh = VertexIndexMesh::new(PrimitiveType::TrianglesList);
    mesh.add_point(v3(0, 0, 0));
    mesh.add_point(v3(1, 0, 0));
    mesh.add_point(v3(0, 1, 0));
    mesh.add_point(v3(7, 7, 7));
    // One full triangle plus a stray remainder, which is skipped.
    mesh.indices = vec![0, 1, 2, 3];
    mesh.recompute_normals();
    assert_eq!(mesh.vertices[3].normal(), v3(0, 0, 0));
    let n0 = mesh.vertices[0].normal();
    assert!(n0.z.bits != 0);
}

#[test]
fn cylinder_with_one_facet_is_empty() {
    let mesh = cylinder(v3(0, 0, 0), v3(0, 1, 0), 1, fx(1));
    assert_eq!(mesh.vertices.len(), 0);
    assert_eq!(mesh.indices.len(), 0);
    assert!(matches!(mesh.primtype, PrimitiveType::TrianglesList));
}

#[test]
fn cylinder_has_twelve_vertices_per_facet() {
    let mesh = cylinder(v3(0, 0, 0), v3(0, 10, 0), 8, fx(1));
    assert_eq!(mesh.vertices.len(), 96);
    assert_eq!(mesh.indices.len(), 96);
    for (i, &idx) in mesh.indices.iter().enumerate() {
        assert_eq!(idx as usize, i);
    }
    // Each wedge starts at the stem foot and ends at the stem head.
    assert_eq!(mesh.vertices[0].pos(), v3(0, 0, 0));
    assert_eq!(mesh.vertices[11].pos(), v3(0, 10, 0));
    // Rim points sit at radius one from the stem axis.
    let rim = mesh.vertices[2].pos();
    let sq = rim.x.bits * rim.x.bits + rim.z.bits * rim.z.bits;
    let unit = FX_SCALE * FX_SCALE;
    assert!((sq - unit).abs() <= unit / 25);
    assert_eq!(rim.y.bits, 0);
}

#[test]
fn generate_branch_paints_bark_colors() {
    let mesh = generate_branch(v3(0, 0, 0), v3(0, 5, 0), 8, fx(1));
    assert_eq!(mesh.vertices.len(), 96);
    let lo = fx(25).div_int(255).bits;
    let hi = fx(70).div_int(255).bits;
    for v in &mesh.vertices {
        let c = v.color();
        assert!(lo <= c.x.bits && c.x.bits <= hi);
        assert!(c.y.bits <= c.x.bits);
        assert!(c.z.bits <= c.y.bits);
        assert_eq!(c.w, fx(1));
    }
}

#[test]
fn line_mesh_doubles_points() {
    let mut line = LineMesh::new();
    line.append_point(v3(1, 0, 0));
    assert_eq!(line.points, vec![v3(1, 0, 0), v3(1, 0, 0)]);
    line.append_point(v3(2, 0, 0));
    assert_eq!(line.points.len(), 4);
    assert_eq!(line.points[2], v3(1, 0, 0));
    assert_eq!(line.points[3], v3(2, 0, 0));
    line.move_to(v3(9, 0, 0));
    assert_eq!(line.points[4], v3(9, 0, 0));
    assert_eq!(line.points[5], v3(9, 0, 0));
    assert_eq!(line.colors.len(), line.points.len());
}

#[test]
fn line_walker_traces_a_segment() {
    let word = vec![trunk(fx(1), fx(2), 0)];
    let line = ls_to_lines(&word);
    assert_eq!(line.points.len(), 4);
    assert_eq!(line.points[0], v3(0, 0, 0));
    assert_eq!(line.points[3], v3(0, 2, 0));
}

#[test]
fn line_walker_lifts_the_pen_on_branches() {
    let word = vec![
        trunk(fx(1), fx(1), 0),
        push(),
        pitch(Fx::from_degrees(90)),
        trunk(fx(1), fx(1), 0),
        pop(),
    ];
    let line = ls_to_lines(&word);
    // Start pair, segment pair, push pair, segment pair, pop pair.
    assert_eq!(line.points.len(), 10);
    assert_eq!(line.points[3], v3(0, 1, 0));
    // After the pop the pen returns to the branch point.
    assert_eq!(line.points[8], v3(0, 1, 0));
    // The pitched segment heads along +z.
    let tip = line.points[7];
    assert_eq!(tip.y.bits, FX_SCALE);
    assert!((tip.z.bits - FX_SCALE).abs() <= 32);
}

#[test]
fn solid_walker_emits_cylinders_and_requests() {
    let word = vec![
        trunk(fx(1), fx(2), 0),
        Module::BranchApex { r: fx(1), l: fx(1), life: 0 },
    ];
    let (mesh, requests) = ls_to_cylinders(&word);
    assert_eq!(mesh.vertices.len(), 96);
    assert_eq!(mesh.indices.len(), 96);
    assert_eq!(requests.len(), 1);
    assert_eq!(requests[0].start, v3(0, 2, 0));
    assert_eq!(requests[0].end, v3(0, 3, 0));
    assert_eq!(requests[0].radius, fx(1));
    // The walker's normals are recomputed: every referenced vertex
    // carries a roughly unit normal.
    let n = mesh.vertices[1].normal();
    let sq = n.x.bits * n.x.bits + n.y.bits * n.y.bits + n.z.bits * n.z.bits;
    let unit = FX_SCALE * FX_SCALE;
    assert!((sq - unit).abs() <= unit / 20);
}

#[test]
fn solid_walker_on_empty_word_is_empty() {
    let word: Vec<Module> = Vec::new();
    let (mesh, requests) = ls_to_cylinders(&word);
    assert_eq!(mesh.vertices.len(), 0);
    assert_eq!(requests.len(), 0);
}

#[test]
fn transform_points_moves_every_point() {
    let pts = vec![v3(0, 0, 0), v3(1, 1, 1)];
    let moved = transform_points(&pts, Mat4::from_translation(v3(0, 5, 0)));
    assert_eq!(moved, vec![v3(0, 5, 0), v3(1, 6, 1)]);
}

#[test]
fn random_scalars_stay_in_their_ranges() {
    for _ in 0..50 {
        let r = random_max(fx(10));
        assert!(0 <= r.bits && r.bits <= fx(10).bits);
        let l = random_lohi(fx(-3), fx(4));
        assert!(fx(-3).bits <= l.bits && l.bits <= fx(4).bits);
    }
}

#[test]
fn sphere_points_are_sorted_and_unique() {
    let pts = rand_points_in_sphere(200, fx(2));
    assert!(pts.len() <= 200);
    for w in pts.windows(2) {
        let a = &w[0];
        let b = &w[1];
        let key_a = (a.x.bits, a.y.bits, a.z.bits);
        let key_b = (b.x.bits, b.y.bits, b.z.bits);
        assert!(key_a < key_b);
    }
}

#[test]
fn deduplicate_sorts_and_drops_copies() {
    let mut pts = vec![v3(1, 0, 0), v3(0, 0, 0), v3(1, 0, 0), v3(0, 0, 1)];
    deduplicate_points_list(&mut pts);
    assert_eq!(pts, vec![v3(0, 0, 0), v3(0, 0, 1), v3(1, 0, 0)]);
}

#[test]
fn foliage_cloud_sits_around_its_start() {
    let cloud = foliage_cloud(v3(10, 0, 0), fx(1));
    assert!(cloud.len() <= 200);
    for p in &cloud {
        assert!((p.x.bits - fx(10).bits).abs() <= fx(1).bits + 16);
        assert!(p.y.bits.abs() <= fx(1).bits + 16);
        assert!(p.z.bits.abs() <= fx(1).bits + 16);
    }
}

#[test]
fn foliage_mesh_is_flat_green() {
    let corners = vec![v3(0, 0, 0), v3(1, 0, 0), v3(0, 1, 0)];
    let mesh = foliage_mesh(&corners);
    assert_eq!(mesh.vertices.len(), 3);
    assert_eq!(mesh.indices, vec![0, 1, 2]);
    for v in &mesh.vertices {
        let c = v.color();
        assert_eq!(c.x, fx(62).div_int(255));
        assert_eq!(c.y, fx(117).div_int(255));
        assert_eq!(c.z, fx(31).div_int(255));
        assert_eq!(c.w, fx(1));
    }
}

#[test]
fn attach_foliage_merges_blobs_in_order() {
    let word = vec![trunk(fx(1), fx(2), 0)];
    let (mesh, _) = ls_to_cylinders(&word);
    let blob = foliage_mesh(&vec![v3(0, 3, 0), v3(1, 3, 0), v3(0, 4, 0)]);
    let merged = attach_foliage(mesh, &vec![blob]);
    assert_eq!(merged.vertices.len(), 99);
    assert_eq!(merged.indices.len(), 99);
    assert_eq!(merged.vertices[96].pos(), v3(0, 3, 0));
    for (i, &idx) in merged.indices.iter().enumerate() {
        assert_eq!(idx as usize, i);
    }
}

#[test]
fn vertex_accessors_round_trip() {
    let mut v = Vertex::new(
        v3(1, 2, 3),
        v3(0, 1, 0),
        Vec4 { x: fx(1), y: fx(0), z: fx(0), w: fx(1) },
        Vec2 { x: fx(0), y: fx(1) },
    );
    assert_eq!(v.pos(), v3(1, 2, 3));
    assert_eq!(v.normal(), v3(0, 1, 0));
    v.set_pos(v3(9, 9, 9));
    assert_eq!(v.pos(), v3(9, 9, 9));
    v.set_normal(v3(3, 4, 0));
    v.normalize_normal();
    assert_eq!(v.normal(), v3(3, 4, 0).normalize());
    let p = Vertex::pos_only(v3(5, 5, 5));
    assert_eq!(p.color(), Vec4::zero());
    assert_eq!(p.tex(), Vec2::zero());
}
