//! The chunk mesher: floors and walls of a grid of levels.
//!
//! Cells are visited column by column, `x` outermost. Each cell first emits
//! its floor, then looks north, east, south and west in that order and emits
//! a wall towards every neighbor inside the chunk whose level differs from
//! its own. A wall stands on the shared edge and rises from the floor of the
//! cell that emits it to the ceiling at the wall height, whichever of the two
//! cells is the higher one; the wall of a `High` cell is therefore flat.
use vstd::arithmetic::div_mod::{
    lemma_div_pos_is_pos, lemma_fundamental_div_mod, lemma_mod_pos_bound, lemma_multiply_divide_lt,
};
use vstd::arithmetic::mul::lemma_mul_is_commutative;
use vstd::prelude::*;
use crate::level::{lemma_cell_count_bound, GridModel, LevelGrid};
use crate::mesh::{
    lemma_of_quads_push, lemma_of_quads_valid, MeshBuffer, MeshModel, Quad, Vertex, Winding,
};

verus! {

/// The four neighbors of a cell: north is `y + 1`, east is `x + 1`, south is
/// `y - 1`, west is `x - 1`.
#[derive(Clone, Copy, Debug, PartialEq, Eq, Structural)]
pub enum Direction {
    North,
    East,
    South,
    West,
}

/// Which of the two cells on either side of an edge may raise a wall on it.
#[derive(Clone, Copy, Debug, PartialEq, Eq, Structural)]
pub enum WallPolicy {
    /// Every cell looks in all four directions, so an edge between two
    /// levels carries two walls, one from each side.
    BothSides,
    /// Every cell looks north and east only, so an edge between two levels
    /// carries one wall, from the cell with the lower coordinate.
    LowerSideOnly,
}

/// What a quad of the chunk mesh covers.
#[derive(Clone, Copy, Debug, PartialEq, Eq, Structural)]
pub enum Face {
    Floor,
    Wall(Direction),
}

/// A face of the cell `(x, y)`.
pub struct CellFace {
    pub x: int,
    pub y: int,
    pub face: Face,
}

impl Direction {
    /// The step in `x` from a cell to its neighbor in this direction.
    pub open spec fn dx(self) -> int {
        match self {
            Direction::East => 1,
            Direction::West => -1,
            _ => 0,
        }
    }

    /// The step in `y` from a cell to its neighbor in this direction.
    pub open spec fn dy(self) -> int {
        match self {
            Direction::North => 1,
            Direction::South => -1,
            _ => 0,
        }
    }

    /// The winding that turns the front of a wall away from the neighbor it
    /// was raised against.
    pub open spec fn winding_of(self) -> Winding {
        match self {
            Direction::North | Direction::West => Winding::Clockwise,
            Direction::East | Direction::South => Winding::CounterClockwise,
        }
    }

    /// The winding of a wall raised towards the neighbor in this direction.
    pub fn winding(self) -> (winding: Winding)
        ensures
            winding == self.winding_of(),
    {
        match self {
            Direction::North | Direction::West => Winding::Clockwise,
            Direction::East | Direction::South => Winding::CounterClockwise,
        }
    }
}

impl WallPolicy {
    /// Whether a cell looks for a differing neighbor in direction `d`.
    pub open spec fn looks_spec(self, d: Direction) -> bool {
        self == WallPolicy::BothSides || d == Direction::North || d == Direction::East
    }

    /// Whether a cell looks for a differing neighbor in direction `d`.
    pub fn looks(self, d: Direction) -> (looks: bool)
        ensures
            looks == self.looks_spec(d),
    {
        match self {
            WallPolicy::BothSides => true,
            WallPolicy::LowerSideOnly => match d {
                Direction::North | Direction::East => true,
                Direction::South | Direction::West => false,
            },
        }
    }
}

/// The corners of the floor of the cell `(x, y)` at elevation `height`.
pub open spec fn floor_corners(x: int, y: int, height: int) -> Seq<Vertex> {
    seq![
        Vertex::at(x, height, y),
        Vertex::at(x + 1, height, y),
        Vertex::at(x, height, y + 1),
        Vertex::at(x + 1, height, y + 1),
    ]
}

/// The corners of the wall that the cell `(x, y)`, whose floor is at
/// `height`, raises to `ceiling` on its edge in direction `d`.
pub open spec fn wall_corners(x: int, y: int, height: int, ceiling: int, d: Direction) -> Seq<
    Vertex,
> {
    match d {
        Direction::North => seq![
            Vertex::at(x, height, y + 1),
            Vertex::at(x + 1, height, y + 1),
            Vertex::at(x, ceiling, y + 1),
            Vertex::at(x + 1, ceiling, y + 1),
        ],
        Direction::East => seq![
            Vertex::at(x + 1, height, y),
            Vertex::at(x + 1, height, y + 1),
            Vertex::at(x + 1, ceiling, y),
            Vertex::at(x + 1, ceiling, y + 1),
        ],
        Direction::South => seq![
            Vertex::at(x, height, y),
            Vertex::at(x + 1, height, y),
            Vertex::at(x, ceiling, y),
            Vertex::at(x + 1, ceiling, y),
        ],
        Direction::West => seq![
            Vertex::at(x, height, y),
            Vertex::at(x, height, y + 1),
            Vertex::at(x, ceiling, y),
            Vertex::at(x, ceiling, y + 1),
        ],
    }
}

/// Whether the cell `(x, y)` has a neighbor in direction `d` whose level is
/// not its own.
pub open spec fn differs(g: GridModel, x: int, y: int, d: Direction) -> bool {
    &&& g.in_bounds(x + d.dx(), y + d.dy())
    &&& g.at(x + d.dx(), y + d.dy()) != g.at(x, y)
}

/// Whether the cell `(x, y)` raises a wall in direction `d`: it looks that
/// way and finds a neighbor of another level.
pub open spec fn has_wall(g: GridModel, policy: WallPolicy, x: int, y: int, d: Direction) -> bool {
    policy.looks_spec(d) && differs(g, x, y, d)
}

/// The wall of the cell `(x, y)` in direction `d`, if it raises one.
pub open spec fn wall_faces(g: GridModel, policy: WallPolicy, x: int, y: int, d: Direction) -> Seq<
    CellFace,
> {
    if has_wall(g, policy, x, y, d) {
        seq![CellFace { x, y, face: Face::Wall(d) }]
    } else {
        Seq::empty()
    }
}

/// The faces of the cell `(x, y)`: its floor, then its walls to the north,
/// east, south and west.
pub open spec fn cell_faces(g: GridModel, policy: WallPolicy, x: int, y: int) -> Seq<CellFace> {
    seq![CellFace { x, y, face: Face::Floor }] + wall_faces(g, policy, x, y, Direction::North)
        + wall_faces(g, policy, x, y, Direction::East) + wall_faces(
        g,
        policy,
        x,
        y,
        Direction::South,
    ) + wall_faces(g, policy, x, y, Direction::West)
}

/// The faces of the first `rows` cells of column `x`.
pub open spec fn column_faces(g: GridModel, policy: WallPolicy, x: int, rows: nat) -> Seq<
    CellFace,
>
    decreases rows,
{
    if rows == 0 {
        Seq::empty()
    } else {
        column_faces(g, policy, x, (rows - 1) as nat) + cell_faces(g, policy, x, rows - 1)
    }
}

/// The faces of the first `columns` columns, each in full.
pub open spec fn faces_before(g: GridModel, policy: WallPolicy, columns: nat) -> Seq<CellFace>
    decreases columns,
{
    if columns == 0 {
        Seq::empty()
    } else {
        faces_before(g, policy, (columns - 1) as nat) + column_faces(
            g,
            policy,
            columns - 1,
            g.size,
        )
    }
}

/// The faces of the whole chunk, in the order in which they are emitted.
pub open spec fn chunk_faces(g: GridModel, policy: WallPolicy) -> Seq<CellFace> {
    faces_before(g, policy, g.size)
}

/// The quad that covers a face, under a ceiling at `wall_height`.
pub open spec fn face_quad(g: GridModel, wall_height: u32, f: CellFace) -> Quad {
    let height = g.at(f.x, f.y).elevation_of(wall_height) as int;
    match f.face {
        Face::Floor => Quad {
            corners: floor_corners(f.x, f.y, height),
            winding: Winding::Clockwise,
        },
        Face::Wall(d) => Quad {
            corners: wall_corners(f.x, f.y, height, wall_height as int, d),
            winding: d.winding_of(),
        },
    }
}

/// The quads that cover the given faces, in their order.
pub open spec fn quads_of(g: GridModel, wall_height: u32, faces: Seq<CellFace>) -> Seq<Quad> {
    faces.map_values(|f: CellFace| face_quad(g, wall_height, f))
}

/// The mesh of the chunk with levels `g` under a ceiling at `wall_height`.
pub open spec fn chunk_mesh(g: GridModel, wall_height: u32, policy: WallPolicy) -> MeshModel {
    MeshModel::of_quads(quads_of(g, wall_height, chunk_faces(g, policy)))
}

/// The corners of the floor of the cell `(x, y)` at elevation `height`:
/// bottom-left, bottom-right, top-left and top-right on a map with `x` to the
/// right and `y` upwards.
pub fn floor_quad(x: u32, y: u32, height: u32) -> (corners: [Vertex; 4])
    ensures
        corners@ == floor_corners(x as int, y as int, height as int),
{
    let x0: i64 = x as i64;
    let x1: i64 = x as i64 + 1;
    let z0: i64 = y as i64;
    let z1: i64 = y as i64 + 1;
    let h: i64 = height as i64;
    let corners = [
        Vertex { x: x0, y: h, z: z0 },
        Vertex { x: x1, y: h, z: z0 },
        Vertex { x: x0, y: h, z: z1 },
        Vertex { x: x1, y: h, z: z1 },
    ];
    assert(corners@ =~= floor_corners(x as int, y as int, height as int));
    corners
}

/// The corners of the wall that the cell `(x, y)`, whose floor is at
/// `height`, raises to `ceiling` on its edge in direction `d`: the two lower
/// corners, then the two upper ones.
pub fn wall_quad(x: u32, y: u32, height: u32, ceiling: u32, d: Direction) -> (corners: [Vertex; 4])
    ensures
        corners@ == wall_corners(x as int, y as int, height as int, ceiling as int, d),
{
    let x0: i64 = x as i64;
    let x1: i64 = x as i64 + 1;
    let z0: i64 = y as i64;
    let z1: i64 = y as i64 + 1;
    let lo: i64 = height as i64;
    let hi: i64 = ceiling as i64;
    let corners = match d {
        Direction::North => [
            Vertex { x: x0, y: lo, z: z1 },
            Vertex { x: x1, y: lo, z: z1 },
            Vertex { x: x0, y: hi, z: z1 },
            Vertex { x: x1, y: hi, z: z1 },
        ],
        Direction::East => [
            Vertex { x: x1, y: lo, z: z0 },
            Vertex { x: x1, y: lo, z: z1 },
            Vertex { x: x1, y: hi, z: z0 },
            Vertex { x: x1, y: hi, z: z1 },
        ],
        Direction::South => [
            Vertex { x: x0, y: lo, z: z0 },
            Vertex { x: x1, y: lo, z: z0 },
            Vertex { x: x0, y: hi, z: z0 },
            Vertex { x: x1, y: hi, z: z0 },
        ],
        Direction::West => [
            Vertex { x: x0, y: lo, z: z0 },
            Vertex { x: x0, y: lo, z: z1 },
            Vertex { x: x0, y: hi, z: z0 },
            Vertex { x: x0, y: hi, z: z1 },
        ],
    };
    assert(corners@ =~= wall_corners(x as int, y as int, height as int, ceiling as int, d));
    corners
}

/// Whether the cell `(x, y)` raises a wall in direction `d`.
pub fn needs_wall(grid: &LevelGrid, policy: WallPolicy, x: u32, y: u32, d: Direction) -> (needed:
    bool)
    requires
        grid.wf(),
        grid@.in_bounds(x as int, y as int),
    ensures
        needed == has_wall(grid@, policy, x as int, y as int, d),
{
    if !policy.looks(d) {
        return false;
    }
    let size = grid.size();
    let own = grid.level(x, y);
    match d {
        Direction::North => y + 1 < size && grid.level(x, y + 1) != own,
        Direction::East => x + 1 < size && grid.level(x + 1, y) != own,
        Direction::South => y > 0 && grid.level(x, y - 1) != own,
        Direction::West => x > 0 && grid.level(x - 1, y) != own,
    }
}

/// Covering one more face appends one quad of four corners.
proof fn lemma_quads_of_push(g: GridModel, wall_height: u32, faces: Seq<CellFace>, f: CellFace)
    ensures
        quads_of(g, wall_height, faces.push(f)) == quads_of(g, wall_height, faces).push(
            face_quad(g, wall_height, f),
        ),
        face_quad(g, wall_height, f).corners.len() == 4,
{
    assert(quads_of(g, wall_height, faces.push(f)) =~= quads_of(g, wall_height, faces).push(
        face_quad(g, wall_height, f),
    ));
}

/// Whole columns of `size` cells and `y` more cells are `x * size + y`
/// cells, one fewer than fit in `x + 1` columns.
proof fn lemma_cells_done(size: int, x: int, y: int)
    by (nonlinear_arith)
    requires
        0 <= x < size,
        0 <= y < size,
    ensures
        x * size + y + 1 <= size * size,
        (x + 1) * size == x * size + size,
{
}

/// Appends to `mesh` the quad that covers the face `f`.
fn mesh_face(
    mesh: &mut MeshBuffer,
    grid: &LevelGrid,
    wall_height: u32,
    x: u32,
    y: u32,
    face: Face,
    Ghost(before): Ghost<Seq<CellFace>>,
)
    requires
        grid.wf(),
        grid@.in_bounds(x as int, y as int),
        old(mesh)@ == MeshModel::of_quads(quads_of(grid@, wall_height, before)),
        4 * before.len() + 4 <= u32::MAX,
    ensures
        final(mesh)@ == MeshModel::of_quads(
            quads_of(
                grid@,
                wall_height,
                before.push(CellFace { x: x as int, y: y as int, face }),
            ),
        ),
{
    let height = grid.level(x, y).elevation(wall_height);
    proof {
        lemma_of_quads_valid(quads_of(grid@, wall_height, before));
        let f = CellFace { x: x as int, y: y as int, face };
        lemma_quads_of_push(grid@, wall_height, before, f);
        lemma_of_quads_push(quads_of(grid@, wall_height, before), face_quad(grid@, wall_height, f));
    }
    match face {
        Face::Floor => {
            mesh.push_quad(floor_quad(x, y, height), Winding::Clockwise);
        },
        Face::Wall(d) => {
            mesh.push_quad(wall_quad(x, y, height, wall_height, d), d.winding());
        },
    }
}

/// Appends to `mesh` the wall of the cell `(x, y)` in direction `d`, if the
/// cell raises one.
fn mesh_wall(
    mesh: &mut MeshBuffer,
    grid: &LevelGrid,
    wall_height: u32,
    policy: WallPolicy,
    x: u32,
    y: u32,
    d: Direction,
    Ghost(before): Ghost<Seq<CellFace>>,
)
    requires
        grid.wf(),
        grid@.in_bounds(x as int, y as int),
        old(mesh)@ == MeshModel::of_quads(quads_of(grid@, wall_height, before)),
        4 * before.len() + 4 <= u32::MAX,
    ensures
        final(mesh)@ == MeshModel::of_quads(
            quads_of(
                grid@,
                wall_height,
                before + wall_faces(grid@, policy, x as int, y as int, d),
            ),
        ),
{
    if needs_wall(grid, policy, x, y, d) {
        mesh_face(mesh, grid, wall_height, x, y, Face::Wall(d), Ghost(before));
        assert(before.push(CellFace { x: x as int, y: y as int, face: Face::Wall(d) }) =~= before
            + wall_faces(grid@, policy, x as int, y as int, d));
    } else {
        assert(before =~= before + wall_faces(grid@, policy, x as int, y as int, d));
    }
}

/// Appends to `mesh` the faces of the cell `(x, y)`: its floor, then its
/// walls to the north, east, south and west.
fn mesh_cell(
    mesh: &mut MeshBuffer,
    grid: &LevelGrid,
    wall_height: u32,
    policy: WallPolicy,
    x: u32,
    y: u32,
    Ghost(before): Ghost<Seq<CellFace>>,
)
    requires
        grid.wf(),
        grid@.in_bounds(x as int, y as int),
        old(mesh)@ == MeshModel::of_quads(quads_of(grid@, wall_height, before)),
        4 * before.len() + 20 <= u32::MAX,
    ensures
        final(mesh)@ == MeshModel::of_quads(
            quads_of(grid@, wall_height, before + cell_faces(grid@, policy, x as int, y as int)),
        ),
        cell_faces(grid@, policy, x as int, y as int).len() <= 5,
{
    let ghost g = grid@;
    let ghost (cx, cy) = (x as int, y as int);
    let ghost floor = before.push(CellFace { x: cx, y: cy, face: Face::Floor });
    let ghost north = floor + wall_faces(g, policy, cx, cy, Direction::North);
    let ghost east = north + wall_faces(g, policy, cx, cy, Direction::East);
    let ghost south = east + wall_faces(g, policy, cx, cy, Direction::South);
    let ghost west = south + wall_faces(g, policy, cx, cy, Direction::West);
    mesh_face(mesh, grid, wall_height, x, y, Face::Floor, Ghost(before));
    mesh_wall(mesh, grid, wall_height, policy, x, y, Direction::North, Ghost(floor));
    mesh_wall(mesh, grid, wall_height, policy, x, y, Direction::East, Ghost(north));
    mesh_wall(mesh, grid, wall_height, policy, x, y, Direction::South, Ghost(east));
    mesh_wall(mesh, grid, wall_height, policy, x, y, Direction::West, Ghost(south));
    assert(west =~= before + cell_faces(g, policy, cx, cy));
}

/// Meshes the chunk whose cells have the levels in `grid`, under a ceiling
/// at `wall_height`.
///
/// The mesh holds, for each cell in column order, the cell's floor and then
/// its walls; each quad brings four vertices of its own and six indices. A
/// grid without cells gives an empty mesh.
pub fn generate_chunk(grid: &LevelGrid, wall_height: u32, policy: WallPolicy) -> (mesh: MeshBuffer)
    requires
        grid.wf(),
    ensures
        mesh@ == chunk_mesh(grid@, wall_height, policy),
        mesh.wf(),
{
    let size = grid.size();
    let mut mesh = MeshBuffer::new();
    let ghost mut faces: Seq<CellFace> = Seq::empty();
    proof {
        lemma_cell_count_bound(size as int);
        assert(mesh@.vertices =~= MeshModel::of_quads(quads_of(grid@, wall_height, faces)).vertices);
        assert(mesh@.indices =~= MeshModel::of_quads(quads_of(grid@, wall_height, faces)).indices);
    }
    let mut x: u32 = 0;
    while x < size
        invariant
            grid.wf(),
            size == grid@.size,
            x <= size,
            20 * (size * size) <= u32::MAX,
            faces == faces_before(grid@, policy, x as nat),
            faces.len() <= 5 * (x * size),
            mesh@ == MeshModel::of_quads(quads_of(grid@, wall_height, faces)),
        decreases size - x,
    {
        let ghost column_start = faces;
        let mut y: u32 = 0;
        while y < size
            invariant
                grid.wf(),
                size == grid@.size,
                x < size,
                y <= size,
                20 * (size * size) <= u32::MAX,
                column_start == faces_before(grid@, policy, x as nat),
                faces == column_start + column_faces(grid@, policy, x as int, y as nat),
                faces.len() <= 5 * (x * size + y),
                mesh@ == MeshModel::of_quads(quads_of(grid@, wall_height, faces)),
            decreases size - y,
        {
            proof {
                lemma_cells_done(size as int, x as int, y as int);
            }
            mesh_cell(&mut mesh, grid, wall_height, policy, x, y, Ghost(faces));
            proof {
                let cell = cell_faces(grid@, policy, x as int, y as int);
                assert(column_start + column_faces(grid@, policy, x as int, (y + 1) as nat)
                    =~= faces + cell);
                faces = faces + cell;
            }
            y += 1;
        }
        proof {
            lemma_cells_done(size as int, x as int, 0);
        }
        x += 1;
    }
    proof {
        lemma_of_quads_valid(quads_of(grid@, wall_height, faces));
    }
    mesh
}

/// The mesh of a chunk depends on the levels of its cells, the wall height
/// and the wall policy, and on nothing else: two grids of one size whose
/// cells have the same levels give the same mesh.
pub proof fn lemma_levels_determine_mesh(
    a: GridModel,
    b: GridModel,
    wall_height: u32,
    policy: WallPolicy,
)
    requires
        a.wf(),
        b.wf(),
        a.size == b.size,
        forall|x: int, y: int| a.in_bounds(x, y) ==> a.at(x, y) == b.at(x, y),
    ensures
        chunk_mesh(a, wall_height, policy) == chunk_mesh(b, wall_height, policy),
{
    let size = a.size as int;
    assert forall|i: int| 0 <= i < a.cells.len() implies a.cells[i] == b.cells[i] by {
        let (x, y) = (i / size, i % size);
        assert(0 <= x < size && 0 <= y < size && x * size + y == i) by {
            lemma_fundamental_div_mod(i, size);
            lemma_mod_pos_bound(i, size);
            lemma_div_pos_is_pos(i, size);
            lemma_multiply_divide_lt(i, size, size);
            lemma_mul_is_commutative(size, x);
        }
        assert(a.at(x, y) == b.at(x, y));
    }
    assert(a.cells =~= b.cells);
}

} // verus!
