//! The integer mesh of voxels: counter-clockwise triangles and quads on the
//! integer lattice, the six faces of a voxel, and the index lists that a draw
//! call reads to build triangles from their vertices.
use vstd::prelude::*;

verus! {

/// The type of one entry of an index buffer.
pub type VertexIdx = u16;

/// A triple of integers: a point or a direction in space.
pub type Triple = (int, int, int);

pub open spec fn add3(a: Triple, b: Triple) -> Triple {
    (a.0 + b.0, a.1 + b.1, a.2 + b.2)
}

pub open spec fn sub3(a: Triple, b: Triple) -> Triple {
    (a.0 - b.0, a.1 - b.1, a.2 - b.2)
}

/// The cross product `a × b`.
pub open spec fn cross3(a: Triple, b: Triple) -> Triple {
    (a.1 * b.2 - a.2 * b.1, a.2 * b.0 - a.0 * b.2, a.0 * b.1 - a.1 * b.0)
}

pub open spec fn dot3(a: Triple, b: Triple) -> int {
    a.0 * b.0 + a.1 * b.1 + a.2 * b.2
}

/// Largest absolute coordinate of a lattice vector whose sums and cross
/// products this module computes.
pub const COORD_LIMIT: i64 = 0x4000_0000;

pub open spec fn within_limit(v: Triple) -> bool {
    &&& -COORD_LIMIT <= v.0 <= COORD_LIMIT
    &&& -COORD_LIMIT <= v.1 <= COORD_LIMIT
    &&& -COORD_LIMIT <= v.2 <= COORD_LIMIT
}

/// A point or direction with integer coordinates.
#[derive(Debug, Clone, Copy, PartialEq, Eq, Structural)]
pub struct LatticeVec {
    pub x: i64,
    pub y: i64,
    pub z: i64,
}

impl View for LatticeVec {
    type V = Triple;

    open spec fn view(&self) -> Triple {
        (self.x as int, self.y as int, self.z as int)
    }
}

impl LatticeVec {
    pub fn new(x: i64, y: i64, z: i64) -> (v: LatticeVec)
        ensures
            v@ == (x as int, y as int, z as int),
    {
        LatticeVec { x, y, z }
    }

    /// The sum `self + other`.
    pub fn add(self, other: LatticeVec) -> (v: LatticeVec)
        requires
            i64::MIN <= self.x + other.x <= i64::MAX,
            i64::MIN <= self.y + other.y <= i64::MAX,
            i64::MIN <= self.z + other.z <= i64::MAX,
        ensures
            v@ == add3(self@, other@),
    {
        LatticeVec { x: self.x + other.x, y: self.y + other.y, z: self.z + other.z }
    }

    /// The cross product `self × other`.
    pub fn cross(self, other: LatticeVec) -> (v: LatticeVec)
        requires
            within_limit(self@),
            within_limit(other@),
        ensures
            v@ == cross3(self@, other@),
    {
        proof {
            lemma_product_within(self.y as int, other.z as int);
            lemma_product_within(self.z as int, other.y as int);
            lemma_product_within(self.z as int, other.x as int);
            lemma_product_within(self.x as int, other.z as int);
            lemma_product_within(self.x as int, other.y as int);
            lemma_product_within(self.y as int, other.x as int);
        }
        LatticeVec {
            x: self.y * other.z - self.z * other.y,
            y: self.z * other.x - self.x * other.z,
            z: self.x * other.y - self.y * other.x,
        }
    }
}

proof fn lemma_product_within(a: int, b: int)
    requires
        -COORD_LIMIT <= a <= COORD_LIMIT,
        -COORD_LIMIT <= b <= COORD_LIMIT,
    ensures
        -0x1000_0000_0000_0000 <= a * b <= 0x1000_0000_0000_0000,
{
    assert(-0x1000_0000_0000_0000 <= a * b <= 0x1000_0000_0000_0000) by (nonlinear_arith)
        requires
            -0x4000_0000 <= a <= 0x4000_0000,
            -0x4000_0000 <= b <= 0x4000_0000,
    ;
}

/// A vertex of the integer mesh: where it is, and the direction its face looks.
#[derive(Debug, Clone, Copy, PartialEq, Eq, Structural)]
pub struct MeshVertex {
    pub position: LatticeVec,
    pub normal: LatticeVec,
}

/// A counter-clockwise triangle: `former` and `latter` are the edges from
/// `position` to the second and the third vertex, `latter` counter-clockwise
/// from `former` seen from the front, where `former × latter` points.
#[derive(Debug, Clone, Copy, PartialEq, Eq, Structural)]
pub struct TriangleCCW {
    pub position: LatticeVec,
    pub former: LatticeVec,
    pub latter: LatticeVec,
}

impl TriangleCCW {
    pub open spec fn within_limit(&self) -> bool {
        &&& within_limit(self.position@)
        &&& within_limit(self.former@)
        &&& within_limit(self.latter@)
    }

    /// The direction the front face looks: `former × latter`, not normalized.
    pub open spec fn normal_spec(&self) -> Triple {
        cross3(self.former@, self.latter@)
    }

    /// Vertex `k` of the triangle, in winding order.
    pub open spec fn corner(&self, k: int) -> Triple {
        if k == 0 {
            self.position@
        } else if k == 1 {
            add3(self.position@, self.former@)
        } else {
            add3(self.position@, self.latter@)
        }
    }

    /// The direction of the front face, `former × latter`, not normalized.
    pub fn normal_direction(&self) -> (n: LatticeVec)
        requires
            self.within_limit(),
        ensures
            n@ == self.normal_spec(),
    {
        self.former.cross(self.latter)
    }

    /// The three vertices, in winding order, each with the face's direction.
    pub fn vertices(&self) -> (vs: [MeshVertex; 3])
        requires
            self.within_limit(),
        ensures
            forall|k: int|
                0 <= k < 3 ==> (#[trigger] vs@[k]).position@ == self.corner(k)
                    && vs@[k].normal@ == self.normal_spec(),
    {
        let n = self.normal_direction();
        [
            MeshVertex { position: self.position, normal: n },
            MeshVertex { position: self.position.add(self.former), normal: n },
            MeshVertex { position: self.position.add(self.latter), normal: n },
        ]
    }

    /// Indices of the triangle's vertices when they are stored from `base` on.
    pub fn indices(base: VertexIdx) -> (idx: [VertexIdx; 3])
        requires
            base + 2 <= u16::MAX,
        ensures
            forall|k: int| 0 <= k < 3 ==> #[trigger] idx@[k] == base + k,
    {
        [base, base + 1, base + 2]
    }
}

/// Offset, from the first index of a quad, of entry `k` of its index list:
/// the triangles `[0, 1, 2]` and `[2, 3, 0]`.
pub open spec fn quad_index_offset(k: int) -> int {
    if k == 0 || k == 5 {
        0
    } else if k == 1 {
        1
    } else if k == 2 || k == 3 {
        2
    } else {
        3
    }
}

/// A counter-clockwise quad, made of two triangles. Its corners are
/// `position`, `position + former`, `position + former + latter` and
/// `position + latter`; `former × latter` is the direction its front looks.
#[derive(Debug, Clone, Copy, PartialEq, Eq, Structural)]
pub struct QuadCCW {
    pub position: LatticeVec,
    pub former: LatticeVec,
    pub latter: LatticeVec,
}

impl QuadCCW {
    pub open spec fn within_limit(&self) -> bool {
        &&& within_limit(self.position@)
        &&& within_limit(self.former@)
        &&& within_limit(self.latter@)
    }

    /// The direction the front face looks: `former × latter`, not normalized.
    pub open spec fn normal_spec(&self) -> Triple {
        cross3(self.former@, self.latter@)
    }

    /// Corner `k` of the quad, in winding order.
    pub open spec fn corner(&self, k: int) -> Triple {
        if k == 0 {
            self.position@
        } else if k == 1 {
            add3(self.position@, self.former@)
        } else if k == 2 {
            add3(add3(self.position@, self.former@), self.latter@)
        } else {
            add3(self.position@, self.latter@)
        }
    }

    /// The direction of the front face, `former × latter`, not normalized.
    pub fn normal_direction(&self) -> (n: LatticeVec)
        requires
            self.within_limit(),
        ensures
            n@ == self.normal_spec(),
    {
        self.former.cross(self.latter)
    }

    /// The four corners, in winding order, each with the face's direction.
    pub fn vertices(&self) -> (vs: [MeshVertex; 4])
        requires
            self.within_limit(),
        ensures
            forall|k: int|
                0 <= k < 4 ==> (#[trigger] vs@[k]).position@ == self.corner(k)
                    && vs@[k].normal@ == self.normal_spec(),
    {
        let n = self.normal_direction();
        let p1 = self.position.add(self.former);
        [
            MeshVertex { position: self.position, normal: n },
            MeshVertex { position: p1, normal: n },
            MeshVertex { position: p1.add(self.latter), normal: n },
            MeshVertex { position: self.position.add(self.latter), normal: n },
        ]
    }

    /// Indices of the quad's two triangles, `[0, 1, 2]` and `[2, 3, 0]`, when
    /// its corners are stored from `base` on.
    pub fn indices(base: VertexIdx) -> (idx: [VertexIdx; 6])
        requires
            base + 3 <= u16::MAX,
        ensures
            forall|k: int| 0 <= k < 6 ==> #[trigger] idx@[k] == base + quad_index_offset(k),
    {
        [base, base + 1, base + 2, base + 2, base + 3, base]
    }
}

/// The direction in which the triangle `a, b, c` winds counter-clockwise:
/// `(b - a) × (c - a)`.
pub open spec fn winding_normal(a: Triple, b: Triple, c: Triple) -> Triple {
    cross3(sub3(b, a), sub3(c, a))
}

proof fn lemma_cross_distributes(f: Triple, l: Triple)
    ensures
        cross3(f, add3(f, l)) == cross3(f, l),
        cross3(sub3((0, 0, 0), f), sub3((0, 0, 0), add3(f, l))) == cross3(f, l),
{
    assert(f.1 * (f.2 + l.2) - f.2 * (f.1 + l.1) == f.1 * l.2 - f.2 * l.1) by (nonlinear_arith);
    assert(f.2 * (f.0 + l.0) - f.0 * (f.2 + l.2) == f.2 * l.0 - f.0 * l.2) by (nonlinear_arith);
    assert(f.0 * (f.1 + l.1) - f.1 * (f.0 + l.0) == f.0 * l.1 - f.1 * l.0) by (nonlinear_arith);
    assert((0 - f.1) * (0 - (f.2 + l.2)) - (0 - f.2) * (0 - (f.1 + l.1)) == f.1 * l.2 - f.2 * l.1)
        by (nonlinear_arith);
    assert((0 - f.2) * (0 - (f.0 + l.0)) - (0 - f.0) * (0 - (f.2 + l.2)) == f.2 * l.0 - f.0 * l.2)
        by (nonlinear_arith);
    assert((0 - f.0) * (0 - (f.1 + l.1)) - (0 - f.1) * (0 - (f.0 + l.0)) == f.0 * l.1 - f.1 * l.0)
        by (nonlinear_arith);
}

/// A triangle's vertices, taken in winding order, wind counter-clockwise about
/// the direction its front face looks.
pub proof fn lemma_triangle_winds_about_normal(t: TriangleCCW)
    ensures
        winding_normal(t.corner(0), t.corner(1), t.corner(2)) == t.normal_spec(),
{
    assert(sub3(t.corner(1), t.corner(0)) == t.former@);
    assert(sub3(t.corner(2), t.corner(0)) == t.latter@);
}

/// Both triangles that a quad's index list makes of its corners, `[0, 1, 2]`
/// and `[2, 3, 0]`, wind counter-clockwise about the direction the quad's front
/// looks, so both face the same way as the quad.
pub proof fn lemma_quad_triangles_wind_about_normal(q: QuadCCW)
    ensures
        forall|t: int|
            0 <= t < 2 ==> #[trigger] winding_normal(
                q.corner(quad_index_offset(3 * t)),
                q.corner(quad_index_offset(3 * t + 1)),
                q.corner(quad_index_offset(3 * t + 2)),
            ) == q.normal_spec(),
{
    let f = q.former@;
    let l = q.latter@;
    lemma_cross_distributes(f, l);
    assert(sub3(q.corner(1), q.corner(0)) == f);
    assert(sub3(q.corner(2), q.corner(0)) == add3(f, l));
    assert(sub3(q.corner(3), q.corner(2)) == sub3((0, 0, 0), f));
    assert(sub3(q.corner(0), q.corner(2)) == sub3((0, 0, 0), add3(f, l)));
    assert forall|t: int| 0 <= t < 2 implies #[trigger] winding_normal(
        q.corner(quad_index_offset(3 * t)),
        q.corner(quad_index_offset(3 * t + 1)),
        q.corner(quad_index_offset(3 * t + 2)),
    ) == q.normal_spec() by {
        if t == 0 {
            assert(quad_index_offset(0) == 0 && quad_index_offset(1) == 1 && quad_index_offset(2) == 2);
        } else {
            assert(quad_index_offset(3) == 2 && quad_index_offset(4) == 3 && quad_index_offset(5) == 0);
        }
    }
}

/// Number of faces of a voxel, and of vertices per face.
pub const VOXEL_FACES: usize = 6;

pub const VERTICES_PER_FACE: usize = 4;

/// Face `i` of the voxel whose origin is at the lattice origin, in the order
/// -X, +X, -Y, +Y, -Z, +Z: the corner it starts at, and its two edges.
pub open spec fn voxel_quad(i: int) -> QuadCCW {
    let o = LatticeVec { x: 0, y: 0, z: 0 };
    let x = LatticeVec { x: 1, y: 0, z: 0 };
    let y = LatticeVec { x: 0, y: 1, z: 0 };
    let z = LatticeVec { x: 0, y: 0, z: 1 };
    if i == 0 {
        QuadCCW { position: o, former: z, latter: y }
    } else if i == 1 {
        QuadCCW { position: x, former: y, latter: z }
    } else if i == 2 {
        QuadCCW { position: o, former: x, latter: z }
    } else if i == 3 {
        QuadCCW { position: y, former: z, latter: x }
    } else if i == 4 {
        QuadCCW { position: o, former: y, latter: x }
    } else {
        QuadCCW { position: z, former: x, latter: y }
    }
}

/// The unit vector pointing out of the voxel through face `i`
/// (-X, +X, -Y, +Y, -Z, +Z).
pub open spec fn face_outward_normal(i: int) -> Triple {
    let s: int = if i % 2 == 0 { -1 } else { 1 };
    if i / 2 == 0 {
        (s, 0, 0)
    } else if i / 2 == 1 {
        (0, s, 0)
    } else {
        (0, 0, s)
    }
}

/// `p` is a corner of the unit cube that lies on the cube's face `i`.
pub open spec fn cube_corner_on_face(p: Triple, i: int) -> bool {
    &&& 0 <= p.0 <= 1 && 0 <= p.1 <= 1 && 0 <= p.2 <= 1
    &&& i / 2 == 0 ==> p.0 == i % 2
    &&& i / 2 == 1 ==> p.1 == i % 2
    &&& i / 2 == 2 ==> p.2 == i % 2
}

/// Position, relative to the voxel's origin, of vertex `j` of a voxel's mesh:
/// the faces' corners, four per face, in face order.
pub open spec fn voxel_vertex_position(j: int) -> Triple {
    voxel_quad(j / 4).corner(j % 4)
}

/// Which vertex of a voxel's mesh entry `j` of its index list names.
pub open spec fn voxel_index_offset(j: int) -> int {
    4 * (j / 6) + quad_index_offset(j % 6)
}

/// The mesh of one voxel: a unit cube with six counter-clockwise faces that
/// look outward. Positions are relative to the voxel's origin.
#[derive(Debug, Clone, Copy, PartialEq, Eq, Structural)]
pub struct Voxel;

impl Voxel {
    /// The six faces, in the order -X, +X, -Y, +Y, -Z, +Z.
    pub fn faces(&self) -> (fs: [QuadCCW; 6])
        ensures
            forall|i: int| 0 <= i < 6 ==> #[trigger] fs@[i] == voxel_quad(i),
    {
        let o = LatticeVec::new(0, 0, 0);
        let x = LatticeVec::new(1, 0, 0);
        let y = LatticeVec::new(0, 1, 0);
        let z = LatticeVec::new(0, 0, 1);
        [
            QuadCCW { position: o, former: z, latter: y },
            QuadCCW { position: x, former: y, latter: z },
            QuadCCW { position: o, former: x, latter: z },
            QuadCCW { position: y, former: z, latter: x },
            QuadCCW { position: o, former: y, latter: x },
            QuadCCW { position: z, former: x, latter: y },
        ]
    }

    /// The faces' corners, four per face in face order, each with its face's
    /// direction.
    pub fn vertices(&self) -> (vs: Vec<MeshVertex>)
        ensures
            vs@.len() == VOXEL_FACES * VERTICES_PER_FACE,
            forall|j: int|
                0 <= j < vs@.len() ==> (#[trigger] vs@[j]).position@ == voxel_vertex_position(j)
                    && vs@[j].normal@ == voxel_quad(j / 4).normal_spec(),
    {
        let faces = self.faces();
        let mut out: Vec<MeshVertex> = Vec::new();
        let mut i: usize = 0;
        while i < VOXEL_FACES
            invariant
                i <= VOXEL_FACES,
                out@.len() == 4 * i,
                forall|i: int| 0 <= i < 6 ==> #[trigger] faces@[i] == voxel_quad(i),
                forall|j: int|
                    0 <= j < out@.len() ==> (#[trigger] out@[j]).position@ == voxel_vertex_position(
                        j,
                    ) && out@[j].normal@ == voxel_quad(j / 4).normal_spec(),
            decreases VOXEL_FACES - i,
        {
            let face = faces[i];
            let vs = face.vertices();
            let mut k: usize = 0;
            while k < VERTICES_PER_FACE
                invariant
                    i < VOXEL_FACES,
                    k <= VERTICES_PER_FACE,
                    out@.len() == 4 * i + k,
                    face == voxel_quad(i as int),
                    forall|m: int|
                        0 <= m < 4 ==> (#[trigger] vs@[m]).position@ == face.corner(m)
                            && vs@[m].normal@ == face.normal_spec(),
                    forall|j: int|
                        0 <= j < out@.len() ==> (#[trigger] out@[j]).position@
                            == voxel_vertex_position(j) && out@[j].normal@ == voxel_quad(
                            j / 4,
                        ).normal_spec(),
                decreases VERTICES_PER_FACE - k,
            {
                let ghost j: int = out@.len() as int;
                assert(j / 4 == i && j % 4 == k);
                out.push(vs[k]);
                k += 1;
            }
            i += 1;
        }
        out
    }

    /// The index list of the voxel's twelve triangles, two per face, when its
    /// vertices are stored from `base` on in the order of [`Voxel::vertices`].
    pub fn indices(&self, base: VertexIdx) -> (idx: Vec<VertexIdx>)
        requires
            base + 23 <= u16::MAX,
        ensures
            idx@.len() == 6 * VOXEL_FACES,
            forall|j: int| 0 <= j < idx@.len() ==> #[trigger] idx@[j] == base + voxel_index_offset(j),
    {
        let mut out: Vec<VertexIdx> = Vec::new();
        let mut i: u16 = 0;
        while i < 6
            invariant
                base + 23 <= u16::MAX,
                i <= 6,
                out@.len() == 6 * i,
                forall|j: int|
                    0 <= j < out@.len() ==> #[trigger] out@[j] == base + voxel_index_offset(j),
            decreases 6 - i,
        {
            let quad = QuadCCW::indices(base + i * 4);
            let mut k: usize = 0;
            while k < 6
                invariant
                    base + 23 <= u16::MAX,
                    i < 6,
                    k <= 6,
                    out@.len() == 6 * i + k,
                    forall|m: int|
                        0 <= m < 6 ==> #[trigger] quad@[m] == base + i * 4 + quad_index_offset(m),
                    forall|j: int|
                        0 <= j < out@.len() ==> #[trigger] out@[j] == base + voxel_index_offset(j),
                decreases 6 - k,
            {
                let ghost j: int = out@.len() as int;
                assert(j / 6 == i && j % 6 == k);
                out.push(quad[k]);
                k += 1;
            }
            i += 1;
        }
        out
    }
}

proof fn lemma_cross_of_unit_axes()
    ensures
        cross3((0int, 0int, 1int), (0int, 1int, 0int)) == (-1int, 0int, 0int),
        cross3((0int, 1int, 0int), (0int, 0int, 1int)) == (1int, 0int, 0int),
        cross3((1int, 0int, 0int), (0int, 0int, 1int)) == (0int, -1int, 0int),
        cross3((0int, 0int, 1int), (1int, 0int, 0int)) == (0int, 1int, 0int),
        cross3((0int, 1int, 0int), (1int, 0int, 0int)) == (0int, 0int, -1int),
        cross3((1int, 0int, 0int), (0int, 1int, 0int)) == (0int, 0int, 1int),
{
    assert(cross3((0int, 0int, 1int), (0int, 1int, 0int)) == (-1int, 0int, 0int)) by (nonlinear_arith);
    assert(cross3((0int, 1int, 0int), (0int, 0int, 1int)) == (1int, 0int, 0int)) by (nonlinear_arith);
    assert(cross3((1int, 0int, 0int), (0int, 0int, 1int)) == (0int, -1int, 0int)) by (nonlinear_arith);
    assert(cross3((0int, 0int, 1int), (1int, 0int, 0int)) == (0int, 1int, 0int)) by (nonlinear_arith);
    assert(cross3((0int, 1int, 0int), (1int, 0int, 0int)) == (0int, 0int, -1int)) by (nonlinear_arith);
    assert(cross3((1int, 0int, 0int), (0int, 1int, 0int)) == (0int, 0int, 1int)) by (nonlinear_arith);
}

/// Each face of a voxel looks out of the cube: its direction, `former ×
/// latter`, is the outward unit normal of that side, and its four corners are
/// corners of the unit cube that lie on that side.
pub proof fn lemma_voxel_faces_point_outward()
    ensures
        forall|i: int|
            0 <= i < 6 ==> #[trigger] voxel_quad(i).normal_spec() == face_outward_normal(i),
        forall|i: int, k: int|
            0 <= i < 6 && 0 <= k < 4 ==> cube_corner_on_face(#[trigger] voxel_quad(i).corner(k), i),
{
    lemma_cross_of_unit_axes();
    assert forall|i: int| 0 <= i < 6 implies #[trigger] voxel_quad(i).normal_spec()
        == face_outward_normal(i) by {
        if i == 0 {
            assert(voxel_quad(0).former@ == (0int, 0int, 1int) && voxel_quad(0).latter@ == (0int, 1int, 0int));
            assert(face_outward_normal(0) == (-1int, 0int, 0int));
        } else if i == 1 {
            assert(voxel_quad(1).former@ == (0int, 1int, 0int) && voxel_quad(1).latter@ == (0int, 0int, 1int));
            assert(face_outward_normal(1) == (1int, 0int, 0int));
        } else if i == 2 {
            assert(voxel_quad(2).former@ == (1int, 0int, 0int) && voxel_quad(2).latter@ == (0int, 0int, 1int));
            assert(face_outward_normal(2) == (0int, -1int, 0int));
        } else if i == 3 {
            assert(voxel_quad(3).former@ == (0int, 0int, 1int) && voxel_quad(3).latter@ == (1int, 0int, 0int));
            assert(face_outward_normal(3) == (0int, 1int, 0int));
        } else if i == 4 {
            assert(voxel_quad(4).former@ == (0int, 1int, 0int) && voxel_quad(4).latter@ == (1int, 0int, 0int));
            assert(face_outward_normal(4) == (0int, 0int, -1int));
        } else {
            assert(voxel_quad(5).former@ == (1int, 0int, 0int) && voxel_quad(5).latter@ == (0int, 1int, 0int));
            assert(face_outward_normal(5) == (0int, 0int, 1int));
        }
    }
    assert forall|i: int, k: int| 0 <= i < 6 && 0 <= k < 4 implies cube_corner_on_face(
        #[trigger] voxel_quad(i).corner(k),
        i,
    ) by {
        if i == 0 {
        } else if i == 1 {
        } else if i == 2 {
        } else if i == 3 {
        } else if i == 4 {
        } else {
        }
    }
}

proof fn lemma_outward_normal_products(i: int, a: Triple)
    requires
        0 <= i < 6,
        cube_corner_on_face(a, i),
    ensures
        dot3(face_outward_normal(i), face_outward_normal(i)) == 1,
        dot3(face_outward_normal(i), sub3(add3(a, a), (1, 1, 1))) == 1,
{
    let n = face_outward_normal(i);
    let d = sub3(add3(a, a), (1, 1, 1));
    if i / 2 == 0 {
        assert(n.1 == 0 && n.2 == 0 && (n.0 == 1 || n.0 == -1));
        assert(n.0 == -1 <==> d.0 == -1);
        assert(n.0 * n.0 == 1 && n.0 * d.0 == 1) by (nonlinear_arith)
            requires n.0 == 1 || n.0 == -1, n.0 == -1 <==> d.0 == -1, d.0 == 1 || d.0 == -1;
    } else if i / 2 == 1 {
        assert(n.0 == 0 && n.2 == 0 && (n.1 == 1 || n.1 == -1));
        assert(n.1 == -1 <==> d.1 == -1);
        assert(n.1 * n.1 == 1 && n.1 * d.1 == 1) by (nonlinear_arith)
            requires n.1 == 1 || n.1 == -1, n.1 == -1 <==> d.1 == -1, d.1 == 1 || d.1 == -1;
    } else {
        assert(n.0 == 0 && n.1 == 0 && (n.2 == 1 || n.2 == -1));
        assert(n.2 == -1 <==> d.2 == -1);
        assert(n.2 * n.2 == 1 && n.2 * d.2 == 1) by (nonlinear_arith)
            requires n.2 == 1 || n.2 == -1, n.2 == -1 <==> d.2 == -1, d.2 == 1 || d.2 == -1;
    }
}

/// Every vertex of a voxel's mesh carries a unit normal, so normalizing it
/// leaves it as it is.
pub proof fn lemma_voxel_normals_are_unit()
    ensures
        forall|j: int|
            0 <= j < 24 ==> dot3(
                #[trigger] voxel_quad(j / 4).normal_spec(),
                voxel_quad(j / 4).normal_spec(),
            ) == 1,
{
    lemma_voxel_faces_point_outward();
    assert forall|j: int| 0 <= j < 24 implies dot3(
        #[trigger] voxel_quad(j / 4).normal_spec(),
        voxel_quad(j / 4).normal_spec(),
    ) == 1 by {
        let i: int = j / 4;
        assert(0 <= i < 6);
        assert(voxel_quad(i).normal_spec() == face_outward_normal(i));
        assert(cube_corner_on_face(voxel_quad(i).corner(0), i));
        lemma_outward_normal_products(i, voxel_quad(i).corner(0));
    }
}

/// Each entry of a voxel's index list names one of the four vertices of the
/// face that its triangle belongs to, so every entry names one of the mesh's
/// twenty-four vertices.
pub proof fn lemma_voxel_indices_name_own_face()
    ensures
        forall|j: int|
            0 <= j < 36 ==> 4 * (j / 6) <= #[trigger] voxel_index_offset(j) < 4 * (j / 6) + 4,
        forall|j: int| 0 <= j < 36 ==> 0 <= #[trigger] voxel_index_offset(j) < 24,
{
    assert forall|j: int| 0 <= j < 36 implies 4 * (j / 6) <= #[trigger] voxel_index_offset(j) < 4 * (
    j / 6) + 4 && voxel_index_offset(j) < 24 by {
        assert(0 <= j / 6 < 6);
        assert(0 <= j % 6 < 6);
    }
}

/// Vertex `m` (of three) of triangle `t` of a voxel's mesh.
pub open spec fn voxel_triangle_corner(t: int, m: int) -> Triple {
    voxel_vertex_position(voxel_index_offset(3 * t + m))
}

/// The direction about which triangle `t` of a voxel's mesh winds.
pub open spec fn voxel_triangle_normal(t: int) -> Triple {
    winding_normal(voxel_triangle_corner(t, 0), voxel_triangle_corner(t, 1), voxel_triangle_corner(t, 2))
}

/// The twelve triangles of a voxel's mesh face out of the cube: triangle `t`
/// winds counter-clockwise about the outward normal of face `t / 2`, so seen
/// from outside every triangle is a front face, and none is culled as a back
/// face; and the normal stored with each of its three vertices is the
/// direction about which it winds.
pub proof fn lemma_voxel_triangles_face_outward()
    ensures
        forall|t: int|
            0 <= t < 12 ==> #[trigger] voxel_triangle_normal(t) == face_outward_normal(t / 2)
                && dot3(
                voxel_triangle_normal(t),
                sub3(add3(voxel_triangle_corner(t, 0), voxel_triangle_corner(t, 0)), (1, 1, 1)),
            ) > 0,
        forall|t: int, m: int|
            0 <= t < 12 && 0 <= m < 3 ==> voxel_quad(#[trigger] voxel_index_offset(3 * t + m) / 4).normal_spec()
                == voxel_triangle_normal(t),
{
    lemma_voxel_faces_point_outward();
    assert forall|t: int| 0 <= t < 12 implies #[trigger] voxel_triangle_normal(t)
        == face_outward_normal(t / 2) && dot3(
        voxel_triangle_normal(t),
        sub3(add3(voxel_triangle_corner(t, 0), voxel_triangle_corner(t, 0)), (1, 1, 1)),
    ) > 0 && forall|m: int| 0 <= m < 3 ==> voxel_quad(#[trigger] voxel_index_offset(3 * t + m) / 4).normal_spec()
        == voxel_triangle_normal(t) by {
        let f: int = t / 2;
        let h: int = t % 2;
        let q = voxel_quad(f);
        lemma_quad_triangles_wind_about_normal(q);
        assert(0 <= f < 6 && 0 <= h < 2);
        assert forall|m: int| 0 <= m < 3 implies voxel_vertex_position(
            #[trigger] voxel_index_offset(3 * t + m),
        ) == q.corner(quad_index_offset(3 * h + m)) && voxel_index_offset(3 * t + m) / 4 == f by {
            assert((3 * t + m) / 6 == f);
            assert((3 * t + m) % 6 == 3 * h + m);
            let o: int = quad_index_offset(3 * h + m);
            assert(0 <= o < 4);
            assert((4 * f + o) / 4 == f);
            assert((4 * f + o) % 4 == o);
        }
        assert(voxel_vertex_position(voxel_index_offset(3 * t + 0)) == q.corner(
            quad_index_offset(3 * h + 0),
        ));
        assert(voxel_vertex_position(voxel_index_offset(3 * t + 1)) == q.corner(
            quad_index_offset(3 * h + 1),
        ));
        assert(voxel_vertex_position(voxel_index_offset(3 * t + 2)) == q.corner(
            quad_index_offset(3 * h + 2),
        ));
        assert(winding_normal(
            q.corner(quad_index_offset(3 * h)),
            q.corner(quad_index_offset(3 * h + 1)),
            q.corner(quad_index_offset(3 * h + 2)),
        ) == q.normal_spec());
        let a = q.corner(quad_index_offset(3 * h));
        assert(0 <= quad_index_offset(3 * h) < 4);
        assert(cube_corner_on_face(a, f));
        lemma_outward_normal_products(f, a);
    }
}

} // verus!
