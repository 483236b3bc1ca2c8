//! How many faces a chunk has, and how large its mesh is.
use vstd::prelude::*;
use crate::chunk::{
    cell_faces, chunk_faces, chunk_mesh, column_faces, differs, faces_before, has_wall, wall_faces,
    CellFace, Direction, Face, WallPolicy,
};
use crate::level::GridModel;

verus! {

/// The number of floors among `faces`.
pub open spec fn floor_count(faces: Seq<CellFace>) -> nat {
    faces.filter(|f: CellFace| f.face == Face::Floor).len()
}

/// The number of walls among `faces`.
pub open spec fn wall_count(faces: Seq<CellFace>) -> nat {
    faces.filter(|f: CellFace| f.face != Face::Floor).len()
}

/// The floors and walls of two sequences of faces add up.
pub proof fn lemma_counts_add(a: Seq<CellFace>, b: Seq<CellFace>)
    ensures
        floor_count(a + b) == floor_count(a) + floor_count(b),
        wall_count(a + b) == wall_count(a) + wall_count(b),
{
    Seq::filter_distributes_over_add(a, b, |f: CellFace| f.face == Face::Floor);
    Seq::filter_distributes_over_add(a, b, |f: CellFace| f.face != Face::Floor);
}

/// No faces hold no floor and no wall.
pub proof fn lemma_counts_none()
    ensures
        floor_count(Seq::empty()) == 0,
        wall_count(Seq::empty()) == 0,
{
    let none = Seq::<CellFace>::empty();
    Seq::lemma_filter_len(none, |f: CellFace| f.face == Face::Floor);
    Seq::lemma_filter_len(none, |f: CellFace| f.face != Face::Floor);
}

/// A single face counts once, as a floor or as a wall.
pub proof fn lemma_counts_one(f: CellFace)
    ensures
        floor_count(seq![f]) == if f.face == Face::Floor { 1nat } else { 0nat },
        wall_count(seq![f]) == if f.face == Face::Floor { 0nat } else { 1nat },
{
    let none = Seq::<CellFace>::empty();
    assert(seq![f] =~= none.push(f));
    Seq::lemma_filter_push(none, f, |f: CellFace| f.face == Face::Floor);
    Seq::lemma_filter_push(none, f, |f: CellFace| f.face != Face::Floor);
    lemma_counts_none();
}

/// One if `b` holds, zero if not.
pub open spec fn one_if(b: bool) -> nat {
    if b {
        1
    } else {
        0
    }
}

/// Among the first `rows` cells of column `x`, the number of cells with a
/// neighbor of another level in direction `d`.
pub open spec fn column_edges(g: GridModel, x: int, rows: nat, d: Direction) -> nat
    decreases rows,
{
    if rows == 0 {
        0
    } else {
        column_edges(g, x, (rows - 1) as nat, d) + one_if(differs(g, x, rows - 1, d))
    }
}

/// Among the cells of the first `columns` columns, the number of cells with
/// a neighbor of another level in direction `d`.
pub open spec fn edges_before(g: GridModel, columns: nat, d: Direction) -> nat
    decreases columns,
{
    if columns == 0 {
        0
    } else {
        edges_before(g, (columns - 1) as nat, d) + column_edges(g, columns - 1, g.size, d)
    }
}

/// The number of pairs of adjacent cells whose levels differ. Each pair is
/// counted at the cell with the lower coordinate, which has the other to its
/// north or to its east.
pub open spec fn differing_edges(g: GridModel) -> nat {
    edges_before(g, g.size, Direction::North) + edges_before(g, g.size, Direction::East)
}

/// `n` if cells look in direction `d` under `policy`, zero if not.
pub open spec fn if_looked(policy: WallPolicy, d: Direction, n: nat) -> nat {
    if policy.looks_spec(d) {
        n
    } else {
        0
    }
}

/// A cell has one floor, and one wall for each direction in which it raises
/// one.
pub proof fn lemma_cell_counts(g: GridModel, policy: WallPolicy, x: int, y: int)
    ensures
        floor_count(cell_faces(g, policy, x, y)) == 1,
        wall_count(cell_faces(g, policy, x, y)) == one_if(
            has_wall(g, policy, x, y, Direction::North),
        ) + one_if(has_wall(g, policy, x, y, Direction::East)) + one_if(
            has_wall(g, policy, x, y, Direction::South),
        ) + one_if(has_wall(g, policy, x, y, Direction::West)),
{
    let floor = seq![CellFace { x, y, face: Face::Floor }];
    let north = wall_faces(g, policy, x, y, Direction::North);
    let east = wall_faces(g, policy, x, y, Direction::East);
    let south = wall_faces(g, policy, x, y, Direction::South);
    let west = wall_faces(g, policy, x, y, Direction::West);
    lemma_counts_one(CellFace { x, y, face: Face::Floor });
    lemma_counts_one(CellFace { x, y, face: Face::Wall(Direction::North) });
    lemma_counts_one(CellFace { x, y, face: Face::Wall(Direction::East) });
    lemma_counts_one(CellFace { x, y, face: Face::Wall(Direction::South) });
    lemma_counts_one(CellFace { x, y, face: Face::Wall(Direction::West) });
    lemma_counts_none();
    lemma_counts_add(floor, north);
    lemma_counts_add(floor + north, east);
    lemma_counts_add(floor + north + east, south);
    lemma_counts_add(floor + north + east + south, west);
}

/// The first `rows` cells of a column have `rows` floors, and in each
/// direction in which cells look as many walls as there are cells with a
/// neighbor of another level that way.
pub proof fn lemma_column_counts(g: GridModel, policy: WallPolicy, x: int, rows: nat)
    ensures
        floor_count(column_faces(g, policy, x, rows)) == rows,
        wall_count(column_faces(g, policy, x, rows)) == if_looked(
            policy,
            Direction::North,
            column_edges(g, x, rows, Direction::North),
        ) + if_looked(policy, Direction::East, column_edges(g, x, rows, Direction::East))
            + if_looked(policy, Direction::South, column_edges(g, x, rows, Direction::South))
            + if_looked(policy, Direction::West, column_edges(g, x, rows, Direction::West)),
    decreases rows,
{
    if rows == 0 {
        lemma_counts_none();
    } else {
        let below = (rows - 1) as nat;
        lemma_column_counts(g, policy, x, below);
        lemma_cell_counts(g, policy, x, rows - 1);
        lemma_counts_add(column_faces(g, policy, x, below), cell_faces(g, policy, x, rows - 1));
    }
}

/// The first `columns` columns have `columns * size` floors, and in each
/// direction in which cells look as many walls as there are cells with a
/// neighbor of another level that way.
pub proof fn lemma_counts_before(g: GridModel, policy: WallPolicy, columns: nat)
    ensures
        floor_count(faces_before(g, policy, columns)) == columns * g.size,
        wall_count(faces_before(g, policy, columns)) == if_looked(
            policy,
            Direction::North,
            edges_before(g, columns, Direction::North),
        ) + if_looked(policy, Direction::East, edges_before(g, columns, Direction::East))
            + if_looked(policy, Direction::South, edges_before(g, columns, Direction::South))
            + if_looked(policy, Direction::West, edges_before(g, columns, Direction::West)),
    decreases columns,
{
    if columns == 0 {
        lemma_counts_none();
    } else {
        let left = (columns - 1) as nat;
        lemma_counts_before(g, policy, left);
        lemma_column_counts(g, policy, columns - 1, g.size);
        lemma_counts_add(
            faces_before(g, policy, left),
            column_faces(g, policy, columns - 1, g.size),
        );
        assert(columns * g.size == left * g.size + g.size) by (nonlinear_arith)
            requires
                columns == left + 1,
        ;
    }
}

/// A chunk has exactly one floor for each of its cells.
pub proof fn lemma_floor_count(g: GridModel, policy: WallPolicy)
    ensures
        floor_count(chunk_faces(g, policy)) == g.size * g.size,
{
    lemma_counts_before(g, policy, g.size);
}

/// Within a column, the cells that differ from their southern neighbor are
/// as many as the cells below them that differ from their northern one.
proof fn lemma_column_south_north(g: GridModel, x: int, rows: nat)
    requires
        rows <= g.size,
    ensures
        rows == 0 ==> column_edges(g, x, rows, Direction::South) == 0,
        rows > 0 ==> column_edges(g, x, rows, Direction::South) == column_edges(
            g,
            x,
            (rows - 1) as nat,
            Direction::North,
        ),
    decreases rows,
{
    if rows > 0 {
        lemma_column_south_north(g, x, (rows - 1) as nat);
    }
}

/// No cell of a column differs from a neighbor outside the chunk, so the
/// cells of a whole column that differ from their southern neighbor are as
/// many as those that differ from their northern one.
proof fn lemma_whole_column_south_north(g: GridModel, x: int)
    ensures
        column_edges(g, x, g.size, Direction::South) == column_edges(
            g,
            x,
            g.size,
            Direction::North,
        ),
{
    lemma_column_south_north(g, x, g.size);
}

/// The cells of a column that differ from their western neighbor are as many
/// as the cells of the column before that differ from their eastern one, and
/// there are none in the first column; no cell of the last column differs
/// from an eastern neighbor.
proof fn lemma_column_west_east(g: GridModel, x: int, rows: nat)
    requires
        0 <= x < g.size,
        rows <= g.size,
    ensures
        x == 0 ==> column_edges(g, x, rows, Direction::West) == 0,
        x > 0 ==> column_edges(g, x, rows, Direction::West) == column_edges(
            g,
            x - 1,
            rows,
            Direction::East,
        ),
        x == g.size - 1 ==> column_edges(g, x, rows, Direction::East) == 0,
    decreases rows,
{
    if rows > 0 {
        lemma_column_west_east(g, x, (rows - 1) as nat);
    }
}

/// Over whole columns, southern and northern differences are equally many,
/// and the western ones of the first `columns` columns are the eastern ones
/// of the columns before the last of them.
proof fn lemma_edges_before_mirror(g: GridModel, columns: nat)
    requires
        columns <= g.size,
    ensures
        edges_before(g, columns, Direction::South) == edges_before(g, columns, Direction::North),
        columns == 0 ==> edges_before(g, columns, Direction::West) == 0,
        columns > 0 ==> edges_before(g, columns, Direction::West) == edges_before(
            g,
            (columns - 1) as nat,
            Direction::East,
        ),
    decreases columns,
{
    if columns > 0 {
        lemma_edges_before_mirror(g, (columns - 1) as nat);
        lemma_whole_column_south_north(g, columns - 1);
        lemma_column_west_east(g, columns - 1, g.size);
    }
}

/// Every pair of adjacent cells is seen from both sides: looking south or
/// west finds as many differences as looking north or east.
pub proof fn lemma_edges_mirror(g: GridModel)
    ensures
        edges_before(g, g.size, Direction::South) == edges_before(g, g.size, Direction::North),
        edges_before(g, g.size, Direction::West) == edges_before(g, g.size, Direction::East),
{
    lemma_edges_before_mirror(g, g.size);
    if g.size > 0 {
        lemma_column_west_east(g, g.size - 1, g.size);
    }
}

/// A chunk has one wall for each pair of adjacent cells whose levels differ
/// where only the lower side raises walls, and two where both sides do.
pub proof fn lemma_wall_count(g: GridModel, policy: WallPolicy)
    ensures
        wall_count(chunk_faces(g, policy)) == match policy {
            WallPolicy::LowerSideOnly => differing_edges(g),
            WallPolicy::BothSides => 2 * differing_edges(g),
        },
{
    lemma_counts_before(g, policy, g.size);
    lemma_edges_mirror(g);
}

/// Every face is a floor or a wall.
pub proof fn lemma_counts_total(faces: Seq<CellFace>)
    ensures
        faces.len() == floor_count(faces) + wall_count(faces),
    decreases faces.len(),
{
    if faces.len() == 0 {
        assert(faces =~= Seq::empty());
        lemma_counts_none();
    } else {
        let front = faces.drop_last();
        lemma_counts_total(front);
        lemma_counts_one(faces.last());
        lemma_counts_add(front, seq![faces.last()]);
        assert(faces =~= front + seq![faces.last()]);
    }
}

/// The mesh of a chunk has four vertices and six indices for each cell, and
/// four vertices and six indices more for each wall.
pub proof fn lemma_mesh_size(g: GridModel, wall_height: u32, policy: WallPolicy)
    ensures
        chunk_mesh(g, wall_height, policy).vertices.len() == 4 * (g.size * g.size + wall_count(
            chunk_faces(g, policy),
        )),
        chunk_mesh(g, wall_height, policy).indices.len() == 6 * (g.size * g.size + wall_count(
            chunk_faces(g, policy),
        )),
{
    lemma_floor_count(g, policy);
    lemma_counts_total(chunk_faces(g, policy));
}

/// The mesh of a chunk with at least one cell is not empty.
pub proof fn lemma_mesh_not_empty(g: GridModel, wall_height: u32, policy: WallPolicy)
    requires
        g.size >= 1,
    ensures
        chunk_mesh(g, wall_height, policy).vertices.len() >= 4,
        chunk_mesh(g, wall_height, policy).indices.len() >= 6,
{
    lemma_mesh_size(g, wall_height, policy);
    assert(g.size * g.size >= 1) by (nonlinear_arith)
        requires
            g.size >= 1,
    ;
}

} // verus!
