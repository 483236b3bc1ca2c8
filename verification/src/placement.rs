//! Which faces a chunk has, and in which order they are emitted.
use vstd::prelude::*;
use crate::chunk::{
    cell_faces, chunk_faces, chunk_mesh, column_faces, face_quad, faces_before, floor_corners,
    has_wall, quads_of, wall_faces, CellFace, Direction, Face, WallPolicy,
};
use crate::level::GridModel;

verus! {

/// Whether the chunk has the face `f`: a floor for every cell, and a wall
/// wherever a cell raises one.
pub open spec fn emitted(g: GridModel, policy: WallPolicy, f: CellFace) -> bool {
    &&& g.in_bounds(f.x, f.y)
    &&& match f.face {
        Face::Floor => true,
        Face::Wall(d) => has_wall(g, policy, f.x, f.y, d),
    }
}

/// The place of a face among the faces of its cell.
pub open spec fn face_rank(face: Face) -> int {
    match face {
        Face::Floor => 0,
        Face::Wall(Direction::North) => 1,
        Face::Wall(Direction::East) => 2,
        Face::Wall(Direction::South) => 3,
        Face::Wall(Direction::West) => 4,
    }
}

/// Whether `a` is emitted before `b`: columns come in the order of `x`, the
/// cells of a column in the order of `y`, and the faces of a cell in the
/// order of their rank.
pub open spec fn precedes(a: CellFace, b: CellFace) -> bool {
    ||| a.x < b.x
    ||| a.x == b.x && a.y < b.y
    ||| a.x == b.x && a.y == b.y && face_rank(a.face) < face_rank(b.face)
}

/// Whether each face of the sequence precedes all those after it.
pub open spec fn ordered(faces: Seq<CellFace>) -> bool {
    forall|i: int, j: int| 0 <= i < j < faces.len() ==> precedes(#[trigger] faces[i], #[trigger] faces[j])
}

/// Whether the sequence holds the faces that satisfy `wanted`, and no other.
pub open spec fn holds_exactly(faces: Seq<CellFace>, wanted: spec_fn(CellFace) -> bool) -> bool {
    forall|f: CellFace| #[trigger] faces.contains(f) <==> wanted(f)
}

/// Two ordered sequences, the faces of the first all before those of the
/// second, make an ordered sequence that holds what either holds.
proof fn lemma_append(
    a: Seq<CellFace>,
    b: Seq<CellFace>,
    in_a: spec_fn(CellFace) -> bool,
    in_b: spec_fn(CellFace) -> bool,
)
    requires
        holds_exactly(a, in_a),
        holds_exactly(b, in_b),
        ordered(a),
        ordered(b),
        forall|fa: CellFace, fb: CellFace| in_a(fa) && in_b(fb) ==> precedes(fa, fb),
    ensures
        holds_exactly(a + b, |f: CellFace| in_a(f) || in_b(f)),
        ordered(a + b),
{
    let joined = a + b;
    assert forall|f: CellFace| #[trigger] joined.contains(f) <==> (in_a(f) || in_b(f)) by {
        if joined.contains(f) {
            let i = choose|i: int| 0 <= i < joined.len() && joined[i] == f;
            if i < a.len() {
                assert(a[i] == f);
                assert(a.contains(f));
            } else {
                assert(b[i - a.len()] == f);
                assert(b.contains(f));
            }
        }
        if in_a(f) {
            assert(a.contains(f));
            let i = choose|i: int| 0 <= i < a.len() && a[i] == f;
            assert(joined[i] == f);
        }
        if in_b(f) {
            assert(b.contains(f));
            let i = choose|i: int| 0 <= i < b.len() && b[i] == f;
            assert(joined[i + a.len()] == f);
        }
    }
    assert forall|i: int, j: int| 0 <= i < j < joined.len() implies precedes(
        #[trigger] joined[i],
        #[trigger] joined[j],
    ) by {
        if j < a.len() {
            assert(precedes(a[i], a[j]));
        } else if i >= a.len() {
            assert(precedes(b[i - a.len()], b[j - a.len()]));
        } else {
            assert(a.contains(a[i]));
            assert(b.contains(b[j - a.len()]));
        }
    }
}

/// The wall of a cell in one direction is there exactly if the cell raises
/// it.
proof fn lemma_wall_faces(g: GridModel, policy: WallPolicy, x: int, y: int, d: Direction)
    ensures
        holds_exactly(
            wall_faces(g, policy, x, y, d),
            |f: CellFace| f == (CellFace { x, y, face: Face::Wall(d) }) && has_wall(g, policy, x, y, d),
        ),
        ordered(wall_faces(g, policy, x, y, d)),
{
    let walls = wall_faces(g, policy, x, y, d);
    let wall = CellFace { x, y, face: Face::Wall(d) };
    assert forall|f: CellFace| #[trigger] walls.contains(f) <==> (f == wall && has_wall(
        g,
        policy,
        x,
        y,
        d,
    )) by {
        if has_wall(g, policy, x, y, d) {
            assert(walls[0] == wall);
        }
    }
}

/// The faces of a cell inside the chunk are those that the chunk has at that
/// cell, in the order of their rank.
proof fn lemma_cell_faces(g: GridModel, policy: WallPolicy, x: int, y: int)
    requires
        g.in_bounds(x, y),
    ensures
        holds_exactly(
            cell_faces(g, policy, x, y),
            |f: CellFace| f.x == x && f.y == y && emitted(g, policy, f),
        ),
        ordered(cell_faces(g, policy, x, y)),
{
    let floor = seq![CellFace { x, y, face: Face::Floor }];
    let is_floor = |f: CellFace| f == CellFace { x, y, face: Face::Floor };
    let is_north = |f: CellFace|
        f == (CellFace { x, y, face: Face::Wall(Direction::North) }) && has_wall(
            g,
            policy,
            x,
            y,
            Direction::North,
        );
    let is_east = |f: CellFace|
        f == (CellFace { x, y, face: Face::Wall(Direction::East) }) && has_wall(
            g,
            policy,
            x,
            y,
            Direction::East,
        );
    let is_south = |f: CellFace|
        f == (CellFace { x, y, face: Face::Wall(Direction::South) }) && has_wall(
            g,
            policy,
            x,
            y,
            Direction::South,
        );
    let is_west = |f: CellFace|
        f == (CellFace { x, y, face: Face::Wall(Direction::West) }) && has_wall(
            g,
            policy,
            x,
            y,
            Direction::West,
        );
    assert forall|f: CellFace| #[trigger] floor.contains(f) <==> is_floor(f) by {
        assert(floor[0] == CellFace { x, y, face: Face::Floor });
    }
    let north = wall_faces(g, policy, x, y, Direction::North);
    let east = wall_faces(g, policy, x, y, Direction::East);
    let south = wall_faces(g, policy, x, y, Direction::South);
    let west = wall_faces(g, policy, x, y, Direction::West);
    lemma_wall_faces(g, policy, x, y, Direction::North);
    lemma_wall_faces(g, policy, x, y, Direction::East);
    lemma_wall_faces(g, policy, x, y, Direction::South);
    lemma_wall_faces(g, policy, x, y, Direction::West);
    lemma_append(floor, north, is_floor, is_north);
    let upto_north = |f: CellFace| is_floor(f) || is_north(f);
    lemma_append(floor + north, east, upto_north, is_east);
    let upto_east = |f: CellFace| upto_north(f) || is_east(f);
    lemma_append(floor + north + east, south, upto_east, is_south);
    let upto_south = |f: CellFace| upto_east(f) || is_south(f);
    lemma_append(floor + north + east + south, west, upto_south, is_west);
    let all = cell_faces(g, policy, x, y);
    assert forall|f: CellFace| #[trigger] all.contains(f) <==> (f.x == x && f.y == y && emitted(
        g,
        policy,
        f,
    )) by {
        assert(all.contains(f) <==> (upto_south(f) || is_west(f)));
    }
}

/// The faces of the first `rows` cells of a column are those that the chunk
/// has at these cells, in the order of the cells.
proof fn lemma_column_faces(g: GridModel, policy: WallPolicy, x: int, rows: nat)
    requires
        0 <= x < g.size,
        rows <= g.size,
    ensures
        holds_exactly(
            column_faces(g, policy, x, rows),
            |f: CellFace| f.x == x && f.y < rows && emitted(g, policy, f),
        ),
        ordered(column_faces(g, policy, x, rows)),
    decreases rows,
{
    let faces = column_faces(g, policy, x, rows);
    if rows == 0 {
        assert forall|f: CellFace| #[trigger] faces.contains(f) <==> (f.x == x && f.y < rows
            && emitted(g, policy, f)) by {}
    } else {
        let below = (rows - 1) as nat;
        lemma_column_faces(g, policy, x, below);
        lemma_cell_faces(g, policy, x, rows - 1);
        let in_below = |f: CellFace| f.x == x && f.y < below && emitted(g, policy, f);
        let in_cell = |f: CellFace| f.x == x && f.y == rows - 1 && emitted(g, policy, f);
        lemma_append(
            column_faces(g, policy, x, below),
            cell_faces(g, policy, x, rows - 1),
            in_below,
            in_cell,
        );
        assert forall|f: CellFace| #[trigger] faces.contains(f) <==> (f.x == x && f.y < rows
            && emitted(g, policy, f)) by {
            assert(faces.contains(f) <==> (in_below(f) || in_cell(f)));
        }
    }
}

/// The faces of the first `columns` columns are those that the chunk has in
/// these columns, in the order of the columns.
proof fn lemma_faces_before(g: GridModel, policy: WallPolicy, columns: nat)
    requires
        columns <= g.size,
    ensures
        holds_exactly(
            faces_before(g, policy, columns),
            |f: CellFace| f.x < columns && emitted(g, policy, f),
        ),
        ordered(faces_before(g, policy, columns)),
    decreases columns,
{
    let faces = faces_before(g, policy, columns);
    if columns == 0 {
        assert forall|f: CellFace| #[trigger] faces.contains(f) <==> (f.x < columns && emitted(
            g,
            policy,
            f,
        )) by {}
    } else {
        let left = (columns - 1) as nat;
        lemma_faces_before(g, policy, left);
        lemma_column_faces(g, policy, columns - 1, g.size);
        let in_left = |f: CellFace| f.x < left && emitted(g, policy, f);
        let in_column = |f: CellFace| f.x == columns - 1 && f.y < g.size && emitted(g, policy, f);
        lemma_append(
            faces_before(g, policy, left),
            column_faces(g, policy, columns - 1, g.size),
            in_left,
            in_column,
        );
        assert forall|f: CellFace| #[trigger] faces.contains(f) <==> (f.x < columns && emitted(
            g,
            policy,
            f,
        )) by {
            assert(faces.contains(f) <==> (in_left(f) || in_column(f)));
        }
    }
}

/// A chunk has a floor for every cell and a wall wherever a cell raises one,
/// and nothing else; its faces come column by column, cell by cell, floor
/// first and then the walls to the north, east, south and west, so that none
/// comes twice.
pub proof fn lemma_chunk_faces(g: GridModel, policy: WallPolicy)
    ensures
        forall|f: CellFace| #[trigger] chunk_faces(g, policy).contains(f) <==> emitted(g, policy, f),
        ordered(chunk_faces(g, policy)),
        chunk_faces(g, policy).no_duplicates(),
{
    lemma_faces_before(g, policy, g.size);
    let faces = chunk_faces(g, policy);
    assert forall|i: int, j: int| 0 <= i < faces.len() && 0 <= j < faces.len() && i != j implies faces[i]
        != faces[j] by {
        if i < j {
            assert(precedes(faces[i], faces[j]));
        } else {
            assert(precedes(faces[j], faces[i]));
        }
    }
}

/// A chunk of a single cell has the floor of that cell and no wall, whatever
/// the level of the cell: its mesh is one quad at the cell's elevation.
pub proof fn lemma_single_cell(g: GridModel, wall_height: u32, policy: WallPolicy)
    requires
        g.size == 1,
    ensures
        chunk_faces(g, policy) == seq![CellFace { x: 0, y: 0, face: Face::Floor }],
        chunk_mesh(g, wall_height, policy).vertices == floor_corners(
            0,
            0,
            g.at(0, 0).elevation_of(wall_height) as int,
        ),
        chunk_mesh(g, wall_height, policy).indices == seq![0int, 2, 1, 1, 2, 3],
{
    let floor = CellFace { x: 0, y: 0, face: Face::Floor };
    let faces = chunk_faces(g, policy);
    assert(faces =~= seq![floor]) by {
        reveal_with_fuel(faces_before, 2);
        reveal_with_fuel(column_faces, 2);
    }
    let mesh = chunk_mesh(g, wall_height, policy);
    assert(quads_of(g, wall_height, faces)[0] == face_quad(g, wall_height, floor));
    assert(mesh.vertices =~= floor_corners(0, 0, g.at(0, 0).elevation_of(wall_height) as int));
    assert(mesh.indices =~= seq![0int, 2, 1, 1, 2, 3]);
}

} // verus!
