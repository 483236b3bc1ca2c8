//! A small cube that marks a place in the chunk, for debugging.
use vstd::prelude::*;
use crate::level::{GridModel, Level, LevelGrid};
use crate::mesh::{lemma_normal_of_edges, MeshBuffer, MeshModel, Vector, Vertex};

verus! {

/// The six faces of the cube: front is `+z`, back `-z`, left `-x`, right
/// `+x`, top `+y`, bottom `-y`.
#[derive(Clone, Copy, Debug, PartialEq, Eq, Structural)]
pub enum CubeFace {
    Front,
    Back,
    Left,
    Right,
    Top,
    Bottom,
}

impl CubeFace {
    /// The unit vector that points out of the cube through this face.
    pub open spec fn outward(self) -> Vector {
        match self {
            CubeFace::Front => Vector { x: 0, y: 0, z: 1 },
            CubeFace::Back => Vector { x: 0, y: 0, z: -1 },
            CubeFace::Left => Vector { x: -1, y: 0, z: 0 },
            CubeFace::Right => Vector { x: 1, y: 0, z: 0 },
            CubeFace::Top => Vector { x: 0, y: 1, z: 0 },
            CubeFace::Bottom => Vector { x: 0, y: -1, z: 0 },
        }
    }

    /// The face covered by the triangles `2 * k` and `2 * k + 1` of the cube.
    pub open spec fn at(k: int) -> CubeFace {
        if k == 0 {
            CubeFace::Front
        } else if k == 1 {
            CubeFace::Back
        } else if k == 2 {
            CubeFace::Left
        } else if k == 3 {
            CubeFace::Right
        } else if k == 4 {
            CubeFace::Top
        } else {
            CubeFace::Bottom
        }
    }
}

/// The eight corners of the cube: left before right, bottom before top, back
/// before front, walking round the back face and then round the front face.
pub open spec fn cube_corners() -> Seq<Vertex> {
    seq![
        Vertex::at(-1, -1, -1),
        Vertex::at(1, -1, -1),
        Vertex::at(1, 1, -1),
        Vertex::at(-1, 1, -1),
        Vertex::at(-1, -1, 1),
        Vertex::at(1, -1, 1),
        Vertex::at(1, 1, 1),
        Vertex::at(-1, 1, 1),
    ]
}

/// The twelve triangles of the cube, two for each face in the order front,
/// back, left, right, top, bottom.
pub open spec fn cube_indices() -> Seq<int> {
    seq![
        4, 5, 6, 4, 6, 7,
        1, 0, 3, 1, 3, 2,
        0, 4, 7, 0, 7, 3,
        5, 1, 2, 5, 2, 6,
        3, 7, 6, 3, 6, 2,
        4, 0, 1, 4, 1, 5,
    ]
}

/// The cube as a mesh of eight shared corners.
pub open spec fn cube_mesh() -> MeshModel {
    MeshModel { vertices: cube_corners(), indices: cube_indices() }
}

/// The dot product of a position and a direction.
pub open spec fn dot(v: Vertex, n: Vector) -> int {
    v.x * n.x + v.y * n.y + v.z * n.z
}

/// The cube centred on the origin, as an indexed mesh of eight corners and
/// twelve triangles.
///
/// Positions are whole numbers, so the cube is given at twice the size of the
/// unit cube, with its corners at plus or minus one: halve the coordinates to
/// get the unit cube.
pub fn debug_cube() -> (mesh: MeshBuffer)
    ensures
        mesh@ == cube_mesh(),
        mesh.wf(),
{
    let mut mesh = MeshBuffer::new();
    mesh.push_vertex(Vertex { x: -1, y: -1, z: -1 });
    mesh.push_vertex(Vertex { x: 1, y: -1, z: -1 });
    mesh.push_vertex(Vertex { x: 1, y: 1, z: -1 });
    mesh.push_vertex(Vertex { x: -1, y: 1, z: -1 });
    mesh.push_vertex(Vertex { x: -1, y: -1, z: 1 });
    mesh.push_vertex(Vertex { x: 1, y: -1, z: 1 });
    mesh.push_vertex(Vertex { x: 1, y: 1, z: 1 });
    mesh.push_vertex(Vertex { x: -1, y: 1, z: 1 });
    mesh.push_triangle(4, 5, 6);
    mesh.push_triangle(4, 6, 7);
    mesh.push_triangle(1, 0, 3);
    mesh.push_triangle(1, 3, 2);
    mesh.push_triangle(0, 4, 7);
    mesh.push_triangle(0, 7, 3);
    mesh.push_triangle(5, 1, 2);
    mesh.push_triangle(5, 2, 6);
    mesh.push_triangle(3, 7, 6);
    mesh.push_triangle(3, 6, 2);
    mesh.push_triangle(4, 0, 1);
    mesh.push_triangle(4, 1, 5);
    proof {
        assert(mesh@.vertices =~= cube_corners());
        assert(mesh@.indices =~= cube_indices());
    }
    mesh
}

/// Every triangle of the cube lies in the face that it belongs to and shows
/// its front to the outside: its normal is the outward unit vector of the
/// face, times four, which is twice the area of half a face of edge two.
pub proof fn lemma_cube_faces_outward(t: int)
    requires
        0 <= t < 12,
    ensures
        cube_mesh().valid(),
        cube_mesh().triangle_count() == 12,
        cube_mesh().normal(t) == (Vector {
            x: 4 * CubeFace::at(t / 2).outward().x,
            y: 4 * CubeFace::at(t / 2).outward().y,
            z: 4 * CubeFace::at(t / 2).outward().z,
        }),
        forall|k: int|
            0 <= k < 3 ==> dot(
                cube_corners()[#[trigger] cube_indices()[3 * t + k]],
                CubeFace::at(t / 2).outward(),
            ) == 1,
{
    let corners = cube_corners();
    let out = CubeFace::at(t / 2).outward();
    let n = Vector { x: 4 * out.x, y: 4 * out.y, z: 4 * out.z };
    if t == 0 {
        lemma_normal_of_edges(corners[4], corners[5], corners[6], 2, 0, 0, 2, 2, 0, n);
    } else if t == 1 {
        lemma_normal_of_edges(corners[4], corners[6], corners[7], 2, 2, 0, 0, 2, 0, n);
    } else if t == 2 {
        lemma_normal_of_edges(corners[1], corners[0], corners[3], -2, 0, 0, -2, 2, 0, n);
    } else if t == 3 {
        lemma_normal_of_edges(corners[1], corners[3], corners[2], -2, 2, 0, 0, 2, 0, n);
    } else if t == 4 {
        lemma_normal_of_edges(corners[0], corners[4], corners[7], 0, 0, 2, 0, 2, 2, n);
    } else if t == 5 {
        lemma_normal_of_edges(corners[0], corners[7], corners[3], 0, 2, 2, 0, 2, 0, n);
    } else if t == 6 {
        lemma_normal_of_edges(corners[5], corners[1], corners[2], 0, 0, -2, 0, 2, -2, n);
    } else if t == 7 {
        lemma_normal_of_edges(corners[5], corners[2], corners[6], 0, 2, -2, 0, 2, 0, n);
    } else if t == 8 {
        lemma_normal_of_edges(corners[3], corners[7], corners[6], 0, 0, 2, 2, 0, 2, n);
    } else if t == 9 {
        lemma_normal_of_edges(corners[3], corners[6], corners[2], 2, 0, 2, 2, 0, 0, n);
    } else if t == 10 {
        lemma_normal_of_edges(corners[4], corners[0], corners[1], 0, 0, -2, 2, 0, -2, n);
    } else {
        lemma_normal_of_edges(corners[4], corners[1], corners[5], 2, 0, -2, 2, 0, 0, n);
    }
    assert forall|k: int| 0 <= k < 3 implies dot(
        corners[#[trigger] cube_indices()[3 * t + k]],
        out,
    ) == 1 by {
        let v = corners[cube_indices()[3 * t + k]];
        assert(v.x * 0 == 0 && v.y * 0 == 0 && v.z * 0 == 0);
        assert(v.x * 1 == v.x && v.y * 1 == v.y && v.z * 1 == v.z);
        assert(v.x * (-1) == -v.x && v.y * (-1) == -v.y && v.z * (-1) == -v.z);
    }
}

/// The number of `High` cells among the four cells `(x, y)`, `(x + 1, y)`,
/// `(x, y + 1)` and `(x + 1, y + 1)`.
pub open spec fn high_corners(g: GridModel, x: int, y: int) -> nat {
    let one_if_high = |level: Level| if level == Level::High { 1nat } else { 0nat };
    one_if_high(g.at(x, y)) + one_if_high(g.at(x + 1, y)) + one_if_high(g.at(x, y + 1))
        + one_if_high(g.at(x + 1, y + 1))
}

/// Whether the place `(x, y)` gets a marker cube: the levels of the four
/// cells around it, counting `Low` as zero and `High` as one, average a
/// quarter or more.
pub open spec fn marked(g: GridModel, x: int, y: int) -> bool {
    4 * high_corners(g, x, y) >= 4
}

/// Whether the place `(x, y)` gets a marker cube.
pub fn needs_marker(grid: &LevelGrid, x: u32, y: u32) -> (needed: bool)
    requires
        grid.wf(),
        grid@.in_bounds(x + 1, y + 1),
    ensures
        needed == marked(grid@, x as int, y as int),
{
    let mut high: u32 = 0;
    if grid.level(x, y) == Level::High {
        high += 1;
    }
    if grid.level(x + 1, y) == Level::High {
        high += 1;
    }
    if grid.level(x, y + 1) == Level::High {
        high += 1;
    }
    if grid.level(x + 1, y + 1) == Level::High {
        high += 1;
    }
    4 * high >= 4
}

} // verus!
