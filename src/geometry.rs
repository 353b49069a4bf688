use vstd::prelude::*;

verus! {

/// A corner of the unit cube `[-1, 1]^3`, in integer coordinates.
#[derive(Clone, Copy, Debug, PartialEq, Eq, Structural)]
pub struct Position {
    pub x: i8,
    pub y: i8,
    pub z: i8,
}

/// Number of vertices in the cube mesh: four per face, none shared between faces.
pub const VERTEX_COUNT: usize = 24;

/// Number of indices in the cube mesh: two triangles per face.
pub const INDEX_COUNT: usize = 36;

/// Number of triangles in the cube mesh.
pub const TRIANGLE_COUNT: usize = 12;

impl Position {
    /// The coordinates as mathematical integers.
    pub open spec fn coords(self) -> (int, int, int) {
        (self.x as int, self.y as int, self.z as int)
    }
}

pub open spec fn pos(x: int, y: int, z: int) -> (int, int, int) {
    (x, y, z)
}

/// The vertex table of the cube mesh.
pub open spec fn cube_vertex_table() -> Seq<(int, int, int)> {
    seq![
        pos(-1, -1, 1), pos(1, -1, 1), pos(1, 1, 1), pos(-1, 1, 1),
        pos(1, -1, 1), pos(1, -1, -1), pos(1, 1, -1), pos(1, 1, 1),
        pos(-1, -1, -1), pos(-1, 1, -1), pos(1, 1, -1), pos(1, -1, -1),
        pos(-1, -1, 1), pos(-1, 1, 1), pos(-1, 1, -1), pos(-1, -1, -1),
        pos(-1, -1, 1), pos(-1, -1, -1), pos(1, -1, -1), pos(1, -1, 1),
        pos(-1, 1, 1), pos(1, 1, 1), pos(1, 1, -1), pos(-1, 1, -1),
    ]
}

/// The index table of the cube mesh: consecutive triples are triangles.
pub open spec fn cube_index_table() -> Seq<u16> {
    seq![
        0u16, 2, 1, 0, 3, 2, 4, 6, 5, 4, 7, 6, 8, 10, 9, 8, 11, 10, 12, 14, 13, 12, 15, 14,
        16, 18, 17, 16, 19, 18, 20, 22, 21, 20, 23, 22,
    ]
}

/// The `k`-th corner (0, 1 or 2) of triangle `t` of the mesh.
pub open spec fn triangle_corner(t: int, k: int) -> (int, int, int) {
    cube_vertex_table()[cube_index_table()[3 * t + k] as int]
}

/// Dot product of the normal `(b - a) x (c - a)` with `a`.
pub open spec fn normal_dot_corner(
    a: (int, int, int),
    b: (int, int, int),
    c: (int, int, int),
) -> int {
    let (ux, uy, uz) = (b.0 - a.0, b.1 - a.1, b.2 - a.2);
    let (vx, vy, vz) = (c.0 - a.0, c.1 - a.1, c.2 - a.2);
    let (nx, ny, nz) = (uy * vz - uz * vy, uz * vx - ux * vz, ux * vy - uy * vx);
    nx * a.0 + ny * a.1 + nz * a.2
}

/// Triangle `t` has a normal that points from its plane toward the origin.
pub open spec fn faces_inward(t: int) -> bool {
    normal_dot_corner(triangle_corner(t, 0), triangle_corner(t, 1), triangle_corner(t, 2)) < 0
}

/// Every index refers to an entry of the vertex table.
pub open spec fn indices_in_range(indices: Seq<u16>, vertex_count: nat) -> bool {
    forall|k: int| 0 <= k < indices.len() ==> (#[trigger] indices[k]) < vertex_count
}

/// The vertex positions of the cube mesh.
pub fn cube_vertices() -> (r: [Position; 24])
    ensures
        r@.len() == cube_vertex_table().len(),
        forall|i: int| 0 <= i < r@.len() ==> (#[trigger] r@[i]).coords() == cube_vertex_table()[i],
{
    let r = [
        Position { x: -1, y: -1, z: 1 }, Position { x: 1, y: -1, z: 1 },
        Position { x: 1, y: 1, z: 1 }, Position { x: -1, y: 1, z: 1 },
        Position { x: 1, y: -1, z: 1 }, Position { x: 1, y: -1, z: -1 },
        Position { x: 1, y: 1, z: -1 }, Position { x: 1, y: 1, z: 1 },
        Position { x: -1, y: -1, z: -1 }, Position { x: -1, y: 1, z: -1 },
        Position { x: 1, y: 1, z: -1 }, Position { x: 1, y: -1, z: -1 },
        Position { x: -1, y: -1, z: 1 }, Position { x: -1, y: 1, z: 1 },
        Position { x: -1, y: 1, z: -1 }, Position { x: -1, y: -1, z: -1 },
        Position { x: -1, y: -1, z: 1 }, Position { x: -1, y: -1, z: -1 },
        Position { x: 1, y: -1, z: -1 }, Position { x: 1, y: -1, z: 1 },
        Position { x: -1, y: 1, z: 1 }, Position { x: 1, y: 1, z: 1 },
        Position { x: 1, y: 1, z: -1 }, Position { x: -1, y: 1, z: -1 },
    ];
    r
}

/// The triangle list of the cube mesh, as indices into `cube_vertices`.
pub fn cube_indices() -> (r: [u16; 36])
    ensures
        r@ == cube_index_table(),
{
    let r = [
        0, 2, 1, 0, 3, 2, 4, 6, 5, 4, 7, 6, 8, 10, 9, 8, 11, 10, 12, 14, 13, 12, 15, 14, 16, 18,
        17, 16, 19, 18, 20, 22, 21, 20, 23, 22,
    ];
    assert(r@ =~= cube_index_table());
    r
}

/// The index list cuts the vertex table into exactly twelve triangles, every
/// index refers to one of the 24 vertices, and each triangle is wound so that
/// its normal points inward, toward the centre of the cube.
pub proof fn lemma_cube_triangles_face_inward()
    ensures
        cube_vertex_table().len() == VERTEX_COUNT,
        cube_index_table().len() == INDEX_COUNT,
        cube_index_table().len() == 3 * TRIANGLE_COUNT,
        indices_in_range(cube_index_table(), cube_vertex_table().len()),
        forall|t: int| 0 <= t < TRIANGLE_COUNT ==> #[trigger] faces_inward(t),
{
    let v = cube_vertex_table();
    let ix = cube_index_table();
    assert(v.len() == 24);
    assert(ix.len() == 36);
    assert(normal_dot_corner(triangle_corner(0, 0), triangle_corner(0, 1), triangle_corner(0, 2))
        == normal_dot_corner(pos(-1, -1, 1), pos(1, 1, 1), pos(1, -1, 1)));
    assert(normal_dot_corner(pos(-1, -1, 1), pos(1, 1, 1), pos(1, -1, 1)) == -4)
        by (nonlinear_arith);
    assert(faces_inward(0));
    assert(normal_dot_corner(triangle_corner(1, 0), triangle_corner(1, 1), triangle_corner(1, 2))
        == normal_dot_corner(pos(-1, -1, 1), pos(-1, 1, 1), pos(1, 1, 1)));
    assert(normal_dot_corner(pos(-1, -1, 1), pos(-1, 1, 1), pos(1, 1, 1)) == -4)
        by (nonlinear_arith);
    assert(faces_inward(1));
    assert(normal_dot_corner(triangle_corner(2, 0), triangle_corner(2, 1), triangle_corner(2, 2))
        == normal_dot_corner(pos(1, -1, 1), pos(1, 1, -1), pos(1, -1, -1)));
    assert(normal_dot_corner(pos(1, -1, 1), pos(1, 1, -1), pos(1, -1, -1)) == -4)
        by (nonlinear_arith);
    assert(faces_inward(2));
    assert(normal_dot_corner(triangle_corner(3, 0), triangle_corner(3, 1), triangle_corner(3, 2))
        == normal_dot_corner(pos(1, -1, 1), pos(1, 1, 1), pos(1, 1, -1)));
    assert(normal_dot_corner(pos(1, -1, 1), pos(1, 1, 1), pos(1, 1, -1)) == -4)
        by (nonlinear_arith);
    assert(faces_inward(3));
    assert(normal_dot_corner(triangle_corner(4, 0), triangle_corner(4, 1), triangle_corner(4, 2))
        == normal_dot_corner(pos(-1, -1, -1), pos(1, 1, -1), pos(-1, 1, -1)));
    assert(normal_dot_corner(pos(-1, -1, -1), pos(1, 1, -1), pos(-1, 1, -1)) == -4)
        by (nonlinear_arith);
    assert(faces_inward(4));
    assert(normal_dot_corner(triangle_corner(5, 0), triangle_corner(5, 1), triangle_corner(5, 2))
        == normal_dot_corner(pos(-1, -1, -1), pos(1, -1, -1), pos(1, 1, -1)));
    assert(normal_dot_corner(pos(-1, -1, -1), pos(1, -1, -1), pos(1, 1, -1)) == -4)
        by (nonlinear_arith);
    assert(faces_inward(5));
    assert(normal_dot_corner(triangle_corner(6, 0), triangle_corner(6, 1), triangle_corner(6, 2))
        == normal_dot_corner(pos(-1, -1, 1), pos(-1, 1, -1), pos(-1, 1, 1)));
    assert(normal_dot_corner(pos(-1, -1, 1), pos(-1, 1, -1), pos(-1, 1, 1)) == -4)
        by (nonlinear_arith);
    assert(faces_inward(6));
    assert(normal_dot_corner(triangle_corner(7, 0), triangle_corner(7, 1), triangle_corner(7, 2))
        == normal_dot_corner(pos(-1, -1, 1), pos(-1, -1, -1), pos(-1, 1, -1)));
    assert(normal_dot_corner(pos(-1, -1, 1), pos(-1, -1, -1), pos(-1, 1, -1)) == -4)
        by (nonlinear_arith);
    assert(faces_inward(7));
    assert(normal_dot_corner(triangle_corner(8, 0), triangle_corner(8, 1), triangle_corner(8, 2))
        == normal_dot_corner(pos(-1, -1, 1), pos(1, -1, -1), pos(-1, -1, -1)));
    assert(normal_dot_corner(pos(-1, -1, 1), pos(1, -1, -1), pos(-1, -1, -1)) == -4)
        by (nonlinear_arith);
    assert(faces_inward(8));
    assert(normal_dot_corner(triangle_corner(9, 0), triangle_corner(9, 1), triangle_corner(9, 2))
        == normal_dot_corner(pos(-1, -1, 1), pos(1, -1, 1), pos(1, -1, -1)));
    assert(normal_dot_corner(pos(-1, -1, 1), pos(1, -1, 1), pos(1, -1, -1)) == -4)
        by (nonlinear_arith);
    assert(faces_inward(9));
    assert(normal_dot_corner(triangle_corner(10, 0), triangle_corner(10, 1), triangle_corner(10, 2))
        == normal_dot_corner(pos(-1, 1, 1), pos(1, 1, -1), pos(1, 1, 1)));
    assert(normal_dot_corner(pos(-1, 1, 1), pos(1, 1, -1), pos(1, 1, 1)) == -4)
        by (nonlinear_arith);
    assert(faces_inward(10));
    assert(normal_dot_corner(triangle_corner(11, 0), triangle_corner(11, 1), triangle_corner(11, 2))
        == normal_dot_corner(pos(-1, 1, 1), pos(-1, 1, -1), pos(1, 1, -1)));
    assert(normal_dot_corner(pos(-1, 1, 1), pos(-1, 1, -1), pos(1, 1, -1)) == -4)
        by (nonlinear_arith);
    assert(faces_inward(11));
    assert forall|t: int| 0 <= t < TRIANGLE_COUNT implies #[trigger] faces_inward(t) by {
        if t == 0 { } else if t == 1 { } else if t == 2 { } else if t == 3 { }
        else if t == 4 { } else if t == 5 { } else if t == 6 { } else if t == 7 { }
        else if t == 8 { } else if t == 9 { } else if t == 10 { } else { }
    }
}

} // verus!
