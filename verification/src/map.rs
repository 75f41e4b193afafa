//! The world: a rectangular grid of cells with a wall all around.
//!
//! A cell holds a material code: `0` is empty space, any other value is a
//! wall of that material.  The model of a map is a sequence of columns,
//! `g[x][y]` being the cell at `(x, y)`.

use vstd::prelude::*;

verus! {

/// The largest number of cells along one side of a map.
pub const MAX_SIDE: usize = 0x7fff_ffff;

/// The number of cells along the x axis.
pub open spec fn grid_width(g: Seq<Seq<u8>>) -> int {
    g.len() as int
}

/// The number of cells along the y axis.
pub open spec fn grid_height(g: Seq<Seq<u8>>) -> int {
    if g.len() > 0 {
        g[0].len() as int
    } else {
        0
    }
}

/// The material code of the cell at `(x, y)`.
pub open spec fn cell(g: Seq<Seq<u8>>, x: int, y: int) -> u8 {
    g[x][y]
}

/// Whether `(x, y)` is a cell of the grid.
pub open spec fn in_grid(g: Seq<Seq<u8>>, x: int, y: int) -> bool {
    0 <= x < grid_width(g) && 0 <= y < grid_height(g)
}

/// Whether `(x, y)` is a cell on one of the four edges of the grid.
pub open spec fn on_border(g: Seq<Seq<u8>>, x: int, y: int) -> bool {
    in_grid(g, x, y) && (x == 0 || y == 0 || x == grid_width(g) - 1 || y == grid_height(g) - 1)
}

/// Whether `(x, y)` is a cell away from the four edges.
pub open spec fn interior(g: Seq<Seq<u8>>, x: int, y: int) -> bool {
    0 < x < grid_width(g) - 1 && 0 < y < grid_height(g) - 1
}

/// Whether something stands in the way at `(x, y)`: a wall, or the end of
/// the world.
pub open spec fn blocked(g: Seq<Seq<u8>>, x: int, y: int) -> bool {
    !in_grid(g, x, y) || cell(g, x, y) != 0
}

/// All columns have the same length.
pub open spec fn rectangular(g: Seq<Seq<u8>>) -> bool {
    forall|x: int| 0 <= x < g.len() ==> (#[trigger] g[x]).len() == grid_height(g)
}

/// Every cell on the edges is a wall.
pub open spec fn enclosed(g: Seq<Seq<u8>>) -> bool {
    forall|x: int, y: int| on_border(g, x, y) ==> #[trigger] cell(g, x, y) != 0
}

/// `t` is the highest material code in the grid.
pub open spec fn is_highest(g: Seq<Seq<u8>>, t: int) -> bool {
    &&& forall|x: int, y: int| in_grid(g, x, y) ==> #[trigger] cell(g, x, y) <= t
    &&& exists|x: int, y: int| in_grid(g, x, y) && #[trigger] cell(g, x, y) == t
}

/// What is wrong with a grid, if anything.  Of several faults the first in
/// this order is named: no cells, columns of different lengths, a side too
/// long, a gap in the wall around.
pub open spec fn fault(g: Seq<Seq<u8>>) -> Option<MapError> {
    if grid_width(g) == 0 || grid_height(g) == 0 {
        Some(MapError::Empty)
    } else if !rectangular(g) {
        Some(MapError::Ragged)
    } else if grid_width(g) > MAX_SIDE || grid_height(g) > MAX_SIDE {
        Some(MapError::TooLarge)
    } else if !enclosed(g) {
        Some(MapError::Open)
    } else {
        None
    }
}

/// A grid that a map can be made of.
pub open spec fn well_formed(g: Seq<Seq<u8>>) -> bool {
    fault(g).is_none()
}

/// The model of nested vectors: the sequence of the views of the columns.
pub open spec fn columns(rows: Seq<Vec<u8>>) -> Seq<Seq<u8>> {
    Seq::new(rows.len(), |x: int| rows[x]@)
}

/// Why a grid was turned away.
#[derive(Clone, Copy, Debug, PartialEq, Eq, Structural)]
pub enum MapError {
    /// The grid has no cells.
    Empty,
    /// The columns differ in length.
    Ragged,
    /// A side is longer than [`MAX_SIDE`].
    TooLarge,
    /// A cell on the edge is empty.
    Open,
}

/// A well-formed grid.  A ray that starts inside it always meets a wall.
pub struct GridMap {
    rows: Vec<Vec<u8>>,
    top: u8,
}

impl View for GridMap {
    type V = Seq<Seq<u8>>;

    closed spec fn view(&self) -> Seq<Seq<u8>> {
        columns(self.rows@)
    }
}

impl GridMap {
    #[verifier::type_invariant]
    pub closed spec fn inv(self) -> bool {
        well_formed(self@) && is_highest(self@, self.top as int)
    }

    /// The highest material code of the map, as a mathematical integer.
    pub closed spec fn spec_top(self) -> int {
        self.top as int
    }

    /// What the invariant of the type says of the model.
    pub proof fn lemma_inv(self)
        requires
            self.inv(),
        ensures
            well_formed(self@),
            is_highest(self@, self.spec_top()),
            0 < self.spec_top() <= 255,
    {
        let (x, y) = choose|x: int, y: int| in_grid(self@, x, y) && #[trigger] cell(self@, x, y) == self.top;
        assert(on_border(self@, 0, 0));
        assert(cell(self@, 0, 0) != 0);
    }

    /// Makes a map of columns of cells: `rows[x][y]` is the cell at
    /// `(x, y)`.  Succeeds exactly on the grids without a fault.
    pub fn new(rows: Vec<Vec<u8>>) -> (r: Result<GridMap, MapError>)
        ensures
            match r {
                Ok(m) => m@ == columns(rows@) && well_formed(m@),
                Err(e) => fault(columns(rows@)) == Some(e),
            },
    {
        let ghost g = columns(rows@);
        let width = rows.len();
        if width == 0 {
            return Err(MapError::Empty);
        }
        let height = rows[0].len();
        if height == 0 {
            return Err(MapError::Empty);
        }
        assert(g[0] == rows[0]@);
        let mut x: usize = 1;
        while x < width
            invariant
                1 <= x <= width,
                width == rows.len(),
                height == rows[0].len(),
                width == grid_width(g),
                height == grid_height(g),
                height > 0,
                g == columns(rows@),
                forall|i: int| 0 <= i < x ==> (#[trigger] g[i]).len() == height,
            decreases width - x,
        {
            if rows[x].len() != height {
                assert(g[x as int].len() != grid_height(g));
                assert(!rectangular(g));
                return Err(MapError::Ragged);
            }
            x += 1;
        }
        assert(rectangular(g));
        if width > MAX_SIDE || height > MAX_SIDE {
            return Err(MapError::TooLarge);
        }
        let mut top: u8 = rows[0][0];
        let ghost mut top_x: int = 0;
        let ghost mut top_y: int = 0;
        let mut x: usize = 0;
        while x < width
            invariant
                0 <= x <= width,
                width == rows.len(),
                height == rows[0].len(),
                width == grid_width(g),
                height == grid_height(g),
                g == columns(rows@),
                rectangular(g),
                width <= MAX_SIDE,
                height <= MAX_SIDE,
                in_grid(g, top_x, top_y),
                cell(g, top_x, top_y) == top,
                forall|i: int, j: int| 0 <= i < x && 0 <= j < height ==> #[trigger] cell(g, i, j) <= top,
                forall|i: int, j: int| 0 <= i < x && on_border(g, i, j) ==> #[trigger] cell(g, i, j) != 0,
            decreases width - x,
        {
            let mut y: usize = 0;
            while y < height
                invariant
                    0 <= x < width,
                    0 <= y <= height,
                    width == rows.len(),
                    height == rows[0].len(),
                    width == grid_width(g),
                    height == grid_height(g),
                    g == columns(rows@),
                    rectangular(g),
                    width <= MAX_SIDE,
                    height <= MAX_SIDE,
                    in_grid(g, top_x, top_y),
                    cell(g, top_x, top_y) == top,
                    forall|i: int, j: int| 0 <= i < x && 0 <= j < height ==> #[trigger] cell(g, i, j) <= top,
                    forall|i: int, j: int| 0 <= i < x && on_border(g, i, j) ==> #[trigger] cell(g, i, j) != 0,
                    forall|j: int| 0 <= j < y ==> #[trigger] cell(g, x as int, j) <= top,
                    forall|j: int| 0 <= j < y && on_border(g, x as int, j) ==> #[trigger] cell(g, x as int, j) != 0,
                decreases height - y,
            {
                assert(g[x as int].len() == height);
                let code = rows[x][y];
                assert(code == cell(g, x as int, y as int));
                let edge = x == 0 || y == 0 || x == width - 1 || y == height - 1;
                if edge && code == 0 {
                    assert(on_border(g, x as int, y as int));
                    assert(!enclosed(g));
                    return Err(MapError::Open);
                }
                if code > top {
                    top = code;
                    proof {
                        top_x = x as int;
                        top_y = y as int;
                    }
                }
                y += 1;
            }
            x += 1;
        }
        assert(enclosed(g));
        assert(is_highest(g, top as int));
        Ok(GridMap { rows, top })
    }

    /// The number of cells along the x axis.
    pub fn width(&self) -> (w: usize)
        ensures
            w == grid_width(self@),
            0 < w <= MAX_SIDE,
    {
        proof {
            use_type_invariant(self);
        }
        self.rows.len()
    }

    /// The number of cells along the y axis.
    pub fn height(&self) -> (h: usize)
        ensures
            h == grid_height(self@),
            0 < h <= MAX_SIDE,
    {
        proof {
            use_type_invariant(self);
        }
        self.rows[0].len()
    }

    /// The highest material code of the map.
    pub fn top_material(&self) -> (t: u8)
        ensures
            t == self.spec_top(),
            is_highest(self@, t as int),
    {
        proof {
            use_type_invariant(self);
        }
        self.top
    }

    /// The material code of the cell at `(x, y)`.
    pub fn cell_at(&self, x: usize, y: usize) -> (code: u8)
        requires
            in_grid(self@, x as int, y as int),
        ensures
            code == cell(self@, x as int, y as int),
    {
        proof {
            use_type_invariant(self);
            assert(self@[x as int].len() == grid_height(self@));
        }
        self.rows[x][y]
    }

    /// Whether the cell at `(x, y)` is a wall.
    pub fn is_solid(&self, x: usize, y: usize) -> (solid: bool)
        requires
            in_grid(self@, x as int, y as int),
        ensures
            solid == (cell(self@, x as int, y as int) != 0),
    {
        self.cell_at(x, y) != 0
    }

    /// Whether something stands in the way at `(x, y)`.  Unlike
    /// [`GridMap::is_solid`] this takes any coordinates: there is no way
    /// out of the world.
    pub fn blocks(&self, x: i64, y: i64) -> (b: bool)
        ensures
            b == blocked(self@, x as int, y as int),
    {
        if x < 0 || y < 0 {
            return true;
        }
        let w = self.width();
        let h = self.height();
        if x as u64 >= w as u64 || y as u64 >= h as u64 {
            return true;
        }
        self.is_solid(x as usize, y as usize)
    }
}

} // verus!
