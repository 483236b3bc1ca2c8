//! Which way the triangles of a chunk mesh face.
//!
//! The front of a triangle is the side from which its corners appear in
//! counter-clockwise order. Floors show their front to the sky. A wall shows
//! its front to the cell that raised it, its back to the neighbor it was
//! raised against.
use vstd::prelude::*;
use crate::chunk::{
    chunk_faces, chunk_mesh, face_quad, quads_of, CellFace, Direction, Face, WallPolicy,
};
use crate::level::GridModel;
use crate::mesh::{lemma_normal_of_edges, lemma_of_quads_normals, Vector};
use crate::placement::lemma_chunk_faces;

verus! {

/// The normal that both triangles of a face should have: straight up and of
/// length one for a floor; for a wall, pointing away from the neighbor, with
/// the height of the wall for its length.
pub open spec fn facing(g: GridModel, wall_height: u32, f: CellFace) -> Vector {
    match f.face {
        Face::Floor => Vector { x: 0, y: 1, z: 0 },
        Face::Wall(d) => {
            let rise = wall_height - g.at(f.x, f.y).elevation_of(wall_height);
            Vector { x: -d.dx() * rise, y: 0, z: -d.dy() * rise }
        },
    }
}

/// A step of zero, one or minus one times a length.
proof fn lemma_step_times(step: int, r: int)
    by (nonlinear_arith)
    ensures
        step == 0 ==> -step * r == 0,
        step == 1 ==> -step * r == -r,
        step == -1 ==> -step * r == r,
{
}

/// Both triangles of the quad that covers a face look the way the face
/// should.
pub proof fn lemma_face_normal(g: GridModel, wall_height: u32, f: CellFace, t: int)
    requires
        0 <= f.x <= u32::MAX,
        0 <= f.y <= u32::MAX,
        0 <= t < 2,
    ensures
        face_quad(g, wall_height, f).normal(t) == facing(g, wall_height, f),
{
    let c = face_quad(g, wall_height, f).corners;
    let r = wall_height - g.at(f.x, f.y).elevation_of(wall_height);
    let n = facing(g, wall_height, f);
    match f.face {
        Face::Floor => {
            if t == 0 {
                lemma_normal_of_edges(c[0], c[2], c[1], 0, 0, 1, 1, 0, 0, n);
            } else {
                lemma_normal_of_edges(c[1], c[2], c[3], -1, 0, 1, 0, 0, 1, n);
            }
        },
        Face::Wall(d) => {
            lemma_step_times(d.dx(), r);
            lemma_step_times(d.dy(), r);
            match d {
                Direction::North => {
                    if t == 0 {
                        lemma_normal_of_edges(c[0], c[2], c[1], 0, r, 0, 1, 0, 0, n);
                    } else {
                        lemma_normal_of_edges(c[1], c[2], c[3], -1, r, 0, 0, r, 0, n);
                    }
                },
                Direction::East => {
                    if t == 0 {
                        lemma_normal_of_edges(c[0], c[1], c[2], 0, 0, 1, 0, r, 0, n);
                    } else {
                        lemma_normal_of_edges(c[2], c[1], c[3], 0, -r, 1, 0, 0, 1, n);
                    }
                },
                Direction::South => {
                    if t == 0 {
                        lemma_normal_of_edges(c[0], c[1], c[2], 1, 0, 0, 0, r, 0, n);
                    } else {
                        lemma_normal_of_edges(c[2], c[1], c[3], 1, -r, 0, 1, 0, 0, n);
                    }
                },
                Direction::West => {
                    if t == 0 {
                        lemma_normal_of_edges(c[0], c[2], c[1], 0, r, 0, 0, 0, 1, n);
                    } else {
                        lemma_normal_of_edges(c[1], c[2], c[3], 0, r, -1, 0, r, 0, n);
                    }
                },
            }
        },
    }
}

/// Every triangle of a chunk mesh looks the way its face should: the face
/// at place `i` owns the triangles `2 * i` and `2 * i + 1`.
pub proof fn lemma_chunk_normals(
    g: GridModel,
    wall_height: u32,
    policy: WallPolicy,
    i: int,
    t: int,
)
    requires
        g.size <= u32::MAX,
        0 <= i < chunk_faces(g, policy).len(),
        0 <= t < 2,
    ensures
        chunk_mesh(g, wall_height, policy).triangle_count() == 2 * chunk_faces(g, policy).len(),
        chunk_mesh(g, wall_height, policy).normal(2 * i + t) == facing(
            g,
            wall_height,
            chunk_faces(g, policy)[i],
        ),
{
    let faces = chunk_faces(g, policy);
    let f = faces[i];
    lemma_chunk_faces(g, policy);
    assert(faces.contains(f));
    lemma_face_normal(g, wall_height, f, t);
    lemma_of_quads_normals(quads_of(g, wall_height, faces), i, t);
}

} // verus!
