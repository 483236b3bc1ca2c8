//! Height levels and the grid of levels that a chunk is meshed from.
use vstd::prelude::*;

verus! {

/// One of the two elevations a cell can have.
#[derive(Clone, Copy, Debug, PartialEq, Eq, Structural)]
pub enum Level {
    Low,
    High,
}

impl Level {
    /// The level that a sample rounded to the nearest integer stands for.
    pub open spec fn of_rounded(rounded: u32) -> Level {
        if rounded == 0 {
            Level::Low
        } else {
            Level::High
        }
    }

    /// The world elevation of a cell at this level, under a ceiling at
    /// `wall_height`.
    pub open spec fn elevation_of(self, wall_height: u32) -> u32 {
        match self {
            Level::Low => 0,
            Level::High => wall_height,
        }
    }

    /// Classifies a normalized sample that has already been rounded to the
    /// nearest integer: zero is `Low`, one is `High`. A sample that overshoots
    /// the nominal range, and so rounds to more than one, counts as `High`.
    pub fn from_rounded(rounded: u32) -> (level: Level)
        ensures
            level == Level::of_rounded(rounded),
    {
        if rounded == 0 {
            Level::Low
        } else {
            Level::High
        }
    }

    /// The elevation of the floor of a cell at this level: zero for `Low`,
    /// `wall_height` for `High`.
    pub fn elevation(self, wall_height: u32) -> (height: u32)
        ensures
            height == self.elevation_of(wall_height),
    {
        match self {
            Level::Low => 0,
            Level::High => wall_height,
        }
    }
}

/// The largest supported number of cells along one side of a chunk.
///
/// A cell contributes at most five quads, so a chunk of this size has at most
/// `20 * MAX_CHUNK_SIZE * MAX_CHUNK_SIZE` vertices, the largest such number
/// that a 32-bit index can count.
pub const MAX_CHUNK_SIZE: u32 = 14_654;

/// A square grid of levels: `size` columns of `size` cells each, the cell
/// `(x, y)` at place `x * size + y` of `cells`.
pub struct GridModel {
    pub size: nat,
    pub cells: Seq<Level>,
}

impl GridModel {
    /// The grid of `size` by `size` cells that are all at `level`.
    pub open spec fn uniform(size: nat, level: Level) -> GridModel {
        GridModel { size, cells: Seq::new(size * size, |i: int| level) }
    }

    /// There is one level for each cell.
    pub open spec fn wf(self) -> bool {
        self.cells.len() == self.size * self.size
    }

    /// Whether `(x, y)` names a cell of the grid.
    pub open spec fn in_bounds(self, x: int, y: int) -> bool {
        0 <= x < self.size && 0 <= y < self.size
    }

    /// The level of the cell `(x, y)`.
    pub open spec fn at(self, x: int, y: int) -> Level
        recommends
            self.in_bounds(x, y),
    {
        self.cells[x * self.size + y]
    }

    /// The grid with the cell `(x, y)` set to `level`.
    pub open spec fn with_level(self, x: int, y: int, level: Level) -> GridModel
        recommends
            self.in_bounds(x, y),
    {
        GridModel { size: self.size, cells: self.cells.update(x * self.size + y, level) }
    }
}

/// The place of a cell in the cell sequence lies within the sequence.
pub proof fn lemma_cell_place(size: int, x: int, y: int)
    by (nonlinear_arith)
    requires
        0 <= x < size,
        0 <= y < size,
    ensures
        0 <= x * size + y < size * size,
{
}

/// Two cells that share a place in the cell sequence are the same cell.
pub proof fn lemma_cell_place_distinct(size: int, x: int, y: int, other_x: int, other_y: int)
    by (nonlinear_arith)
    requires
        0 <= x < size,
        0 <= y < size,
        0 <= other_x < size,
        0 <= other_y < size,
        x * size + y == other_x * size + other_y,
    ensures
        x == other_x,
        y == other_y,
{
}

/// A grid of at most `MAX_CHUNK_SIZE` cells a side has a cell count that
/// every supported word size can hold, twenty times over.
pub proof fn lemma_cell_count_bound(size: int)
    by (nonlinear_arith)
    requires
        0 <= size <= MAX_CHUNK_SIZE,
    ensures
        0 <= size * size,
        20 * (size * size) <= u32::MAX,
{
}

/// The classified levels of the cells of one chunk.
pub struct LevelGrid {
    size: u32,
    cells: Vec<Level>,
}

impl View for LevelGrid {
    type V = GridModel;

    closed spec fn view(&self) -> GridModel {
        GridModel { size: self.size as nat, cells: self.cells@ }
    }
}

impl LevelGrid {
    /// The grid's invariant: it holds one level per cell and is no larger
    /// than `MAX_CHUNK_SIZE` a side.
    pub open spec fn wf(&self) -> bool {
        &&& self@.wf()
        &&& self@.size <= MAX_CHUNK_SIZE
    }

    /// A grid of `size` by `size` cells, all at `level`; `None` if and only
    /// if `size` exceeds `MAX_CHUNK_SIZE`.
    pub fn filled(size: u32, level: Level) -> (grid: Option<LevelGrid>)
        ensures
            grid is Some <==> size <= MAX_CHUNK_SIZE,
            grid matches Some(g) ==> g.wf() && g@ == GridModel::uniform(size as nat, level),
    {
        if size > MAX_CHUNK_SIZE {
            return None;
        }
        proof {
            lemma_cell_count_bound(size as int);
        }
        let count: usize = (size as usize) * (size as usize);
        let mut cells: Vec<Level> = Vec::new();
        while cells.len() < count
            invariant
                cells.len() <= count,
                forall|i: int| 0 <= i < cells.len() ==> cells[i] == level,
            decreases count - cells.len(),
        {
            cells.push(level);
        }
        let grid = LevelGrid { size, cells };
        assert(grid@.cells =~= GridModel::uniform(size as nat, level).cells);
        Some(grid)
    }

    /// The grid of `size` by `size` cells whose levels are `cells`, column by
    /// column: the cell `(x, y)` is `cells[x * size + y]`. `None` if and only
    /// if `size` exceeds `MAX_CHUNK_SIZE` or `cells` does not hold exactly
    /// `size * size` levels.
    pub fn from_cells(size: u32, cells: Vec<Level>) -> (grid: Option<LevelGrid>)
        ensures
            grid is Some <==> size <= MAX_CHUNK_SIZE && cells@.len() == size * size,
            grid matches Some(g) ==> g.wf() && g@ == (GridModel {
                size: size as nat,
                cells: cells@,
            }),
    {
        if size > MAX_CHUNK_SIZE {
            return None;
        }
        proof {
            lemma_cell_count_bound(size as int);
        }
        let count: usize = (size as usize) * (size as usize);
        if cells.len() != count {
            return None;
        }
        Some(LevelGrid { size, cells })
    }

    /// The number of cells along one side.
    pub fn size(&self) -> (size: u32)
        ensures
            size == self@.size,
    {
        self.size
    }

    /// The level of the cell `(x, y)`.
    pub fn level(&self, x: u32, y: u32) -> (level: Level)
        requires
            self.wf(),
            self@.in_bounds(x as int, y as int),
        ensures
            level == self@.at(x as int, y as int),
    {
        proof {
            lemma_cell_place(self.size as int, x as int, y as int);
            lemma_cell_count_bound(self.size as int);
        }
        let place: usize = (x as usize) * (self.size as usize) + (y as usize);
        self.cells[place]
    }

    /// Sets the level of the cell `(x, y)` and leaves every other cell as it
    /// was.
    pub fn set_level(&mut self, x: u32, y: u32, level: Level)
        requires
            old(self).wf(),
            old(self)@.in_bounds(x as int, y as int),
        ensures
            final(self).wf(),
            final(self)@ == old(self)@.with_level(x as int, y as int, level),
            final(self)@.at(x as int, y as int) == level,
            forall|i: int, j: int|
                old(self)@.in_bounds(i, j) && (i != x || j != y) ==> #[trigger] final(self)@.at(i, j)
                    == old(self)@.at(i, j),
    {
        proof {
            lemma_cell_place(self.size as int, x as int, y as int);
            lemma_cell_count_bound(self.size as int);
        }
        let place: usize = (x as usize) * (self.size as usize) + (y as usize);
        self.cells.set(place, level);
        proof {
            assert forall|i: int, j: int|
                old(self)@.in_bounds(i, j) && (i != x || j != y) implies #[trigger] self@.at(i, j)
                == old(self)@.at(i, j) by {
                lemma_cell_place(self.size as int, i, j);
                if i * self.size + j == x * self.size + y {
                    lemma_cell_place_distinct(self.size as int, i, j, x as int, y as int);
                }
            }
        }
    }
}

} // verus!
