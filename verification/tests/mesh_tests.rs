use voxel_explore::mesh::{LatticeVec, MeshVertex, QuadCCW, TriangleCCW, Voxel};

fn v(x: i64, y: i64, z: i64) -> LatticeVec {
    LatticeVec::new(x, y, z)
}

fn sub(a: LatticeVec, b: LatticeVec) -> LatticeVec {
    v(a.x - b.x, a.y - b.y, a.z - b.z)
}

fn dot(a: LatticeVec, b: LatticeVec) -> i64 {
    a.x * b.x + a.y * b.y + a.z * b.z
}

#[test]
fn lattice_vector_sum_and_cross_product() {
    assert_eq!(v(1, 2, 3).add(v(-4, 5, 6)), v(-3, 7, 9));
    assert_eq!(v(1, 0, 0).cross(v(0, 1, 0)), v(0, 0, 1));
    assert_eq!(v(0, 0, 1).cross(v(0, 1, 0)), v(-1, 0, 0));
    assert_eq!(v(2, 3, 4).cross(v(5, 6, 7)), v(-3, 6, -3));
}

#[test]
fn triangle_indices_count_up_from_base() {
    assert_eq!(TriangleCCW::indices(0), [0, 1, 2]);
    assert_eq!(TriangleCCW::indices(7), [7, 8, 9]);
    assert_eq!(TriangleCCW::indices(u16::MAX - 2), [u16::MAX - 2, u16::MAX - 1, u16::MAX]);
}

#[test]
fn triangle_vertices_and_normal() {
    let t = TriangleCCW { position: v(1, 1, 0), former: v(2, 0, 0), latter: v(0, 3, 0) };
    assert_eq!(t.normal_direction(), v(0, 0, 6));
    let vs = t.vertices();
    assert_eq!(vs[0], MeshVertex { position: v(1, 1, 0), normal: v(0, 0, 6) });
    assert_eq!(vs[1].position, v(3, 1, 0));
    assert_eq!(vs[2].position, v(1, 4, 0));
}

#[test]
fn quad_indices_are_two_triangles() {
    assert_eq!(QuadCCW::indices(0), [0, 1, 2, 2, 3, 0]);
    assert_eq!(QuadCCW::indices(20), [20, 21, 22, 22, 23, 20]);
}

#[test]
fn quad_corners_go_round_counter_clockwise() {
    let q = QuadCCW { position: v(0, 0, 0), former: v(1, 0, 0), latter: v(0, 1, 0) };
    let vs = q.vertices();
    let positions: Vec<LatticeVec> = vs.iter().map(|m| m.position).collect();
    assert_eq!(positions, vec![v(0, 0, 0), v(1, 0, 0), v(1, 1, 0), v(0, 1, 0)]);
    assert!(vs.iter().all(|m| m.normal == v(0, 0, 1)));
    // Both triangles wind about the quad's normal.
    let idx = QuadCCW::indices(0);
    for t in 0..2 {
        let a = vs[idx[3 * t] as usize].position;
        let b = vs[idx[3 * t + 1] as usize].position;
        let c = vs[idx[3 * t + 2] as usize].position;
        assert_eq!(sub(b, a).cross(sub(c, a)), q.normal_direction());
    }
}

#[test]
fn voxel_faces_in_axis_order() {
    let faces = Voxel.faces();
    let normals: Vec<LatticeVec> = faces.iter().map(|f| f.normal_direction()).collect();
    assert_eq!(
        normals,
        vec![v(-1, 0, 0), v(1, 0, 0), v(0, -1, 0), v(0, 1, 0), v(0, 0, -1), v(0, 0, 1)]
    );
    assert_eq!(faces[0], QuadCCW { position: v(0, 0, 0), former: v(0, 0, 1), latter: v(0, 1, 0) });
    assert_eq!(faces[5], QuadCCW { position: v(0, 0, 1), former: v(1, 0, 0), latter: v(0, 1, 0) });
}

#[test]
fn voxel_vertices_are_cube_corners_four_per_face() {
    let vs = Voxel.vertices();
    assert_eq!(vs.len(), 24);
    for m in &vs {
        for c in [m.position.x, m.position.y, m.position.z] {
            assert!(c == 0 || c == 1);
        }
        assert_eq!(dot(m.normal, m.normal), 1);
    }
    assert_eq!(vs[4].position, v(1, 0, 0));
    assert_eq!(vs[6].position, v(1, 1, 1));
    assert_eq!(vs[23].position, v(0, 1, 1));
}

#[test]
fn voxel_indices_from_zero() {
    let idx = Voxel.indices(0);
    let expected: Vec<u16> = (0..6u16)
        .flat_map(|i| [4 * i, 4 * i + 1, 4 * i + 2, 4 * i + 2, 4 * i + 3, 4 * i])
        .collect();
    assert_eq!(idx, expected);
    assert!(idx.iter().all(|&i| i < 24));
}

#[test]
fn voxel_indices_from_a_base() {
    let idx = Voxel.indices(100);
    assert_eq!(idx.len(), 36);
    assert_eq!(&idx[..6], &[100, 101, 102, 102, 103, 100]);
    assert_eq!(&idx[30..], &[120, 121, 122, 122, 123, 120]);
    let top = Voxel.indices(u16::MAX - 23);
    assert_eq!(*top.iter().max().unwrap(), u16::MAX);
}

#[test]
fn every_voxel_triangle_faces_outward() {
    let vs = Voxel.vertices();
    let idx = Voxel.indices(0);
    for t in 0..12 {
        let a = vs[idx[3 * t] as usize].position;
        let b = vs[idx[3 * t + 1] as usize].position;
        let c = vs[idx[3 * t + 2] as usize].position;
        let n = sub(b, a).cross(sub(c, a));
        let from_centre = v(2 * a.x - 1, 2 * a.y - 1, 2 * a.z - 1);
        assert!(dot(n, from_centre) > 0, "triangle {t} faces inward");
        assert_eq!(n, vs[idx[3 * t] as usize].normal);
    }
}
