//! Vertex and index buffers of a triangle-list mesh built quad by quad.
use vstd::prelude::*;

verus! {

/// A position in world space, in whole units.
#[derive(Clone, Copy, Debug, PartialEq, Eq, Structural)]
pub struct Vertex {
    pub x: i64,
    pub y: i64,
    pub z: i64,
}

impl Vertex {
    /// The vertex at `(x, y, z)`.
    pub open spec fn at(x: int, y: int, z: int) -> Vertex {
        Vertex { x: x as i64, y: y as i64, z: z as i64 }
    }
}

/// The order in which the two triangles of a quad visit its four corners.
///
/// The corners of a quad are numbered 0 to 3, with corner 3 opposite corner
/// 0. The front of a triangle is the side from which its corners appear in
/// counter-clockwise order, so the two windings show opposite sides of the
/// same quad.
#[derive(Clone, Copy, Debug, PartialEq, Eq, Structural)]
pub enum Winding {
    /// Triangles `(0, 2, 1)` and `(1, 2, 3)`: the front looks along the cross
    /// product of the edges from corner 0 to corner 2 and to corner 1.
    Clockwise,
    /// Triangles `(0, 1, 2)` and `(2, 1, 3)`: the front looks along the cross
    /// product of the edges from corner 0 to corner 1 and to corner 2.
    CounterClockwise,
}

impl Winding {
    /// The six corner numbers of the two triangles, in the order in which
    /// they are written to the index buffer.
    pub open spec fn offsets(self) -> Seq<int> {
        match self {
            Winding::Clockwise => seq![0, 2, 1, 1, 2, 3],
            Winding::CounterClockwise => seq![0, 1, 2, 2, 1, 3],
        }
    }
}

/// A direction in space with a length, in whole units.
pub struct Vector {
    pub x: int,
    pub y: int,
    pub z: int,
}

/// The normal of the triangle `(a, b, c)` on the side from which its corners
/// appear in counter-clockwise order: the cross product of the edges from `a`
/// to `b` and from `a` to `c`. Its length is twice the triangle's area.
pub open spec fn triangle_normal(a: Vertex, b: Vertex, c: Vertex) -> Vector {
    let (ux, uy, uz) = (b.x - a.x, b.y - a.y, b.z - a.z);
    let (vx, vy, vz) = (c.x - a.x, c.y - a.y, c.z - a.z);
    Vector { x: uy * vz - uz * vy, y: uz * vx - ux * vz, z: ux * vy - uy * vx }
}

/// The normal of a triangle whose edges from its first corner are
/// `(ux, uy, uz)` and `(vx, vy, vz)` is the cross product of the two.
pub proof fn lemma_normal_of_edges(
    a: Vertex,
    b: Vertex,
    c: Vertex,
    ux: int,
    uy: int,
    uz: int,
    vx: int,
    vy: int,
    vz: int,
    n: Vector,
)
    requires
        b.x - a.x == ux,
        b.y - a.y == uy,
        b.z - a.z == uz,
        c.x - a.x == vx,
        c.y - a.y == vy,
        c.z - a.z == vz,
        n.x == uy * vz - uz * vy,
        n.y == uz * vx - ux * vz,
        n.z == ux * vy - uy * vx,
    ensures
        triangle_normal(a, b, c) == n,
{
}

/// Four corners and the winding of the two triangles that cover them.
pub struct Quad {
    pub corners: Seq<Vertex>,
    pub winding: Winding,
}

impl Quad {
    /// The normal of the front of the first (`t == 0`) or second (`t == 1`)
    /// triangle of the quad.
    pub open spec fn normal(self, t: int) -> Vector {
        let offsets = self.winding.offsets();
        triangle_normal(
            self.corners[offsets[3 * t]],
            self.corners[offsets[3 * t + 1]],
            self.corners[offsets[3 * t + 2]],
        )
    }
}

/// What a mesh buffer holds: positions, and indices into them, three per
/// triangle.
pub struct MeshModel {
    pub vertices: Seq<Vertex>,
    pub indices: Seq<int>,
}

impl MeshModel {
    /// The mesh with no vertex and no index.
    pub open spec fn empty() -> MeshModel {
        MeshModel { vertices: Seq::empty(), indices: Seq::empty() }
    }

    /// Every index names a vertex, and the indices come in threes.
    pub open spec fn valid(self) -> bool {
        &&& self.indices.len() % 3 == 0
        &&& forall|i: int|
            0 <= i < self.indices.len() ==> 0 <= #[trigger] self.indices[i] < self.vertices.len()
    }

    /// The number of triangles of a valid mesh.
    pub open spec fn triangle_count(self) -> nat {
        self.indices.len() / 3
    }

    /// The normal of the front of triangle `t`.
    pub open spec fn normal(self, t: int) -> Vector {
        triangle_normal(
            self.vertices[self.indices[3 * t]],
            self.vertices[self.indices[3 * t + 1]],
            self.vertices[self.indices[3 * t + 2]],
        )
    }

    /// The mesh with one more vertex, which no index names yet.
    pub open spec fn with_vertex(self, vertex: Vertex) -> MeshModel {
        MeshModel { vertices: self.vertices.push(vertex), indices: self.indices }
    }

    /// The mesh with one more triangle between the vertices `a`, `b` and `c`.
    pub open spec fn with_triangle(self, a: int, b: int, c: int) -> MeshModel {
        MeshModel { vertices: self.vertices, indices: self.indices + seq![a, b, c] }
    }

    /// The mesh with one more quad: its corners appended to the vertices, and
    /// its six corner numbers, counted from the first new vertex, appended to
    /// the indices.
    pub open spec fn with_quad(self, quad: Quad) -> MeshModel {
        MeshModel {
            vertices: self.vertices + quad.corners,
            indices: self.indices + Seq::new(
                6,
                |k: int| self.vertices.len() + quad.winding.offsets()[k],
            ),
        }
    }

    /// The mesh made of the given quads alone, in their order: quad `q` owns
    /// the vertices `4q .. 4q + 4` and the indices `6q .. 6q + 6`.
    pub open spec fn of_quads(quads: Seq<Quad>) -> MeshModel {
        MeshModel {
            vertices: Seq::new(4 * quads.len(), |i: int| quads[i / 4].corners[i % 4]),
            indices: Seq::new(
                6 * quads.len(),
                |i: int| 4 * (i / 6) + quads[i / 6].winding.offsets()[i % 6],
            ),
        }
    }
}

/// Appending a quad to the mesh of a sequence of quads gives the mesh of the
/// longer sequence.
pub proof fn lemma_of_quads_push(quads: Seq<Quad>, quad: Quad)
    requires
        quad.corners.len() == 4,
    ensures
        MeshModel::of_quads(quads.push(quad)) == MeshModel::of_quads(quads).with_quad(quad),
{
    let longer = MeshModel::of_quads(quads.push(quad));
    let pushed = MeshModel::of_quads(quads).with_quad(quad);
    assert(longer.vertices =~= pushed.vertices);
    assert(longer.indices =~= pushed.indices);
}

/// The mesh of any sequence of quads is valid.
pub proof fn lemma_of_quads_valid(quads: Seq<Quad>)
    ensures
        MeshModel::of_quads(quads).valid(),
{
    let mesh = MeshModel::of_quads(quads);
    assert forall|i: int| 0 <= i < mesh.indices.len() implies 0 <= #[trigger] mesh.indices[i]
        < mesh.vertices.len() by {
        let offset = quads[i / 6].winding.offsets()[i % 6];
        assert(0 <= offset <= 3);
    }
}

/// The mesh of a sequence of quads has two triangles for each quad, with the
/// normals of the quad's two triangles.
pub proof fn lemma_of_quads_normals(quads: Seq<Quad>, q: int, t: int)
    requires
        0 <= q < quads.len(),
        0 <= t < 2,
        quads[q].corners.len() == 4,
    ensures
        MeshModel::of_quads(quads).triangle_count() == 2 * quads.len(),
        MeshModel::of_quads(quads).normal(2 * q + t) == quads[q].normal(t),
{
    let mesh = MeshModel::of_quads(quads);
    let first = 3 * (2 * q + t);
    assert(first / 6 == q && (first + 1) / 6 == q && (first + 2) / 6 == q);
    assert(first % 6 == 3 * t && (first + 1) % 6 == 3 * t + 1 && (first + 2) % 6 == 3 * t + 2);
    let offsets = quads[q].winding.offsets();
    assert forall|k: int| 0 <= k < 3 implies mesh.vertices[#[trigger] mesh.indices[first + k]]
        == quads[q].corners[offsets[3 * t + k]] by {
        let offset = offsets[3 * t + k];
        assert(0 <= offset <= 3);
        assert(mesh.indices[first + k] == 4 * q + offset);
        assert((4 * q + offset) / 4 == q && (4 * q + offset) % 4 == offset);
    }
    assert(mesh.vertices[mesh.indices[first + 0]] == quads[q].corners[offsets[3 * t + 0]]);
    assert(mesh.vertices[mesh.indices[first + 1]] == quads[q].corners[offsets[3 * t + 1]]);
    assert(mesh.vertices[mesh.indices[first + 2]] == quads[q].corners[offsets[3 * t + 2]]);
}

/// Growing vertex and index buffers of one mesh.
pub struct MeshBuffer {
    vertices: Vec<Vertex>,
    indices: Vec<u32>,
}

impl View for MeshBuffer {
    type V = MeshModel;

    closed spec fn view(&self) -> MeshModel {
        MeshModel {
            vertices: self.vertices@,
            indices: self.indices@.map_values(|i: u32| i as int),
        }
    }
}

impl MeshBuffer {
    /// The buffer's invariant: its contents are a valid mesh.
    pub open spec fn wf(&self) -> bool {
        self@.valid()
    }

    /// A buffer with no vertex and no index.
    pub fn new() -> (buffer: MeshBuffer)
        ensures
            buffer@ == MeshModel::empty(),
            buffer.wf(),
    {
        let buffer = MeshBuffer { vertices: Vec::new(), indices: Vec::new() };
        assert(buffer@.indices =~= Seq::<int>::empty());
        buffer
    }

    /// The number of vertices held.
    pub fn vertex_count(&self) -> (count: usize)
        ensures
            count == self@.vertices.len(),
    {
        self.vertices.len()
    }

    /// The number of indices held.
    pub fn index_count(&self) -> (count: usize)
        ensures
            count == self@.indices.len(),
    {
        self.indices.len()
    }

    /// Appends one vertex and returns its index.
    pub fn push_vertex(&mut self, vertex: Vertex) -> (index: u32)
        requires
            old(self).wf(),
            old(self)@.vertices.len() <= u32::MAX,
        ensures
            final(self)@ == old(self)@.with_vertex(vertex),
            final(self).wf(),
            index == old(self)@.vertices.len(),
    {
        let index: u32 = self.vertices.len() as u32;
        self.vertices.push(vertex);
        index
    }

    /// Appends one triangle between three vertices that the buffer holds.
    pub fn push_triangle(&mut self, a: u32, b: u32, c: u32)
        requires
            old(self).wf(),
            a < old(self)@.vertices.len(),
            b < old(self)@.vertices.len(),
            c < old(self)@.vertices.len(),
        ensures
            final(self)@ == old(self)@.with_triangle(a as int, b as int, c as int),
            final(self).wf(),
    {
        self.indices.push(a);
        self.indices.push(b);
        self.indices.push(c);
        proof {
            let expected = old(self)@.with_triangle(a as int, b as int, c as int);
            assert(self@.indices =~= expected.indices);
        }
    }

    /// Appends the four corners, and the six indices that `winding` gives
    /// for them, counted from the first of the new vertices.
    pub fn push_quad(&mut self, corners: [Vertex; 4], winding: Winding)
        requires
            old(self).wf(),
            old(self)@.vertices.len() + 4 <= u32::MAX,
        ensures
            final(self)@ == old(self)@.with_quad(Quad { corners: corners@, winding }),
            final(self).wf(),
    {
        let base: u32 = self.vertices.len() as u32;
        self.vertices.push(corners[0]);
        self.vertices.push(corners[1]);
        self.vertices.push(corners[2]);
        self.vertices.push(corners[3]);
        match winding {
            Winding::Clockwise => {
                self.indices.push(base);
                self.indices.push(base + 2);
                self.indices.push(base + 1);
                self.indices.push(base + 1);
                self.indices.push(base + 2);
                self.indices.push(base + 3);
            },
            Winding::CounterClockwise => {
                self.indices.push(base);
                self.indices.push(base + 1);
                self.indices.push(base + 2);
                self.indices.push(base + 2);
                self.indices.push(base + 1);
                self.indices.push(base + 3);
            },
        }
        proof {
            let expected = old(self)@.with_quad(Quad { corners: corners@, winding });
            assert(self@.vertices =~= expected.vertices);
            assert(self@.indices =~= expected.indices);
        }
    }

    /// Hands out the accumulated vertex and index lists.
    pub fn finalize(self) -> (lists: (Vec<Vertex>, Vec<u32>))
        ensures
            lists.0@ == self@.vertices,
            lists.1@.len() == self@.indices.len(),
            forall|k: int| 0 <= k < lists.1@.len() ==> #[trigger] lists.1@[k] == self@.indices[k],
    {
        (self.vertices, self.indices)
    }
}

} // verus!
