use vstd::prelude::*;
use crate::trig::ONE;
use vstd::arithmetic::div_mod::{lemma_fundamental_div_mod, lemma_fundamental_div_mod_converse};

verus! {

/// Largest number of cells along either side of a map.
pub const MAX_GRID_DIM: u32 = 4096;

/// Largest cell size, in world units.
pub const MAX_CELL_SIZE: u32 = 4096;

/// Cell value of an empty cell; any other value is a wall and names its
/// surface.
pub const EMPTY: u8 = 0;

/// Surface reported for cells outside the map, which are solid.
pub const BOUNDARY_SURFACE: u8 = 255;

/// Why a map could not be built.
#[derive(Clone, Copy, Debug, PartialEq, Eq)]
pub enum GridError {
    /// Width or height is zero.
    ZeroDimension,
    /// Width or height is above `MAX_GRID_DIM`.
    TooLarge,
    /// The cell size is zero or above `MAX_CELL_SIZE`.
    BadCellSize,
    /// The number of cells is not width times height.
    CellCountMismatch,
}

/// The error, if any, that `GridMap::new` reports for these arguments.
pub open spec fn grid_error(width: int, height: int, cell_size: int, n_cells: int) -> Option<GridError> {
    if width == 0 || height == 0 {
        Some(GridError::ZeroDimension)
    } else if width > MAX_GRID_DIM || height > MAX_GRID_DIM {
        Some(GridError::TooLarge)
    } else if cell_size == 0 || cell_size > MAX_CELL_SIZE {
        Some(GridError::BadCellSize)
    } else if n_cells != width * height {
        Some(GridError::CellCountMismatch)
    } else {
        None
    }
}

/// A fixed grid of cells, stored row by row (`cells[y * width + x]`).
/// Continuous positions map to cells by `floor(p / (cell_size * ONE))`.
#[derive(Debug)]
pub struct GridMap {
    width: u32,
    height: u32,
    cell_size: u32,
    cells: Vec<u8>,
}

impl GridMap {
    #[verifier::type_invariant]
    spec fn well_formed(self) -> bool {
        grid_error(self.width as int, self.height as int, self.cell_size as int, self.cells@.len() as int) is None
    }

    pub closed spec fn width_spec(&self) -> int {
        self.width as int
    }

    pub closed spec fn height_spec(&self) -> int {
        self.height as int
    }

    pub closed spec fn cell_size_spec(&self) -> int {
        self.cell_size as int
    }

    pub closed spec fn cells_seq(&self) -> Seq<u8> {
        self.cells@
    }

    /// The side of a cell in fixed-point units.
    pub open spec fn cell_span(&self) -> int {
        self.cell_size_spec() * ONE
    }

    /// Value of cell `(x, y)`; cells outside the map are boundary walls.
    pub open spec fn cell_at(&self, x: int, y: int) -> u8 {
        if 0 <= x < self.width_spec() && 0 <= y < self.height_spec() {
            self.cells_seq()[y * self.width_spec() + x]
        } else {
            BOUNDARY_SURFACE
        }
    }

    /// Whether cell `(x, y)` blocks movement and sight.
    pub open spec fn wall_at(&self, x: int, y: int) -> bool {
        self.cell_at(x, y) != EMPTY
    }

    /// The cell index along one axis of the fixed-point coordinate `p`.
    pub open spec fn cell_index(&self, p: int) -> int {
        p / self.cell_span()
    }

    /// Whether the fixed-point point `(x, y)` lies in a wall cell.
    pub open spec fn blocked(&self, x: int, y: int) -> bool {
        self.wall_at(self.cell_index(x), self.cell_index(y))
    }

    /// Builds a map of `width` by `height` cells of `cell_size` world units.
    /// Fails exactly as `grid_error` says.
    pub fn new(width: u32, height: u32, cell_size: u32, cells: Vec<u8>) -> (r: Result<GridMap, GridError>)
        ensures
            match r {
                Ok(m) => grid_error(width as int, height as int, cell_size as int, cells@.len() as int) is None
                    && m.width_spec() == width && m.height_spec() == height
                    && m.cell_size_spec() == cell_size && m.cells_seq() == cells@,
                Err(e) => grid_error(width as int, height as int, cell_size as int, cells@.len() as int) == Some(e),
            },
    {
        if width == 0 || height == 0 {
            return Err(GridError::ZeroDimension);
        }
        if width > MAX_GRID_DIM || height > MAX_GRID_DIM {
            return Err(GridError::TooLarge);
        }
        if cell_size == 0 || cell_size > MAX_CELL_SIZE {
            return Err(GridError::BadCellSize);
        }
        assert(width as int * height as int <= 4096 * 4096) by (nonlinear_arith)
            requires width <= 4096, height <= 4096;
        let n: usize = (width as usize) * (height as usize);
        if cells.len() != n {
            return Err(GridError::CellCountMismatch);
        }
        Ok(GridMap { width, height, cell_size, cells })
    }

    pub fn width(&self) -> (r: u32)
        ensures
            r == self.width_spec(),
            1 <= r <= MAX_GRID_DIM,
    {
        proof {
            use_type_invariant(self);
        }
        self.width
    }

    pub fn height(&self) -> (r: u32)
        ensures
            r == self.height_spec(),
            1 <= r <= MAX_GRID_DIM,
    {
        proof {
            use_type_invariant(self);
        }
        self.height
    }

    pub fn cell_size(&self) -> (r: u32)
        ensures
            r == self.cell_size_spec(),
            1 <= r <= MAX_CELL_SIZE,
    {
        proof {
            use_type_invariant(self);
        }
        self.cell_size
    }

    /// The value of cell `(x, y)`; `BOUNDARY_SURFACE` outside the map.
    pub fn cell(&self, x: i64, y: i64) -> (r: u8)
        ensures
            r == self.cell_at(x as int, y as int),
    {
        proof {
            use_type_invariant(self);
        }
        if x < 0 || y < 0 || x >= self.width as i64 || y >= self.height as i64 {
            return BOUNDARY_SURFACE;
        }
        let w = self.width as usize;
        let n = self.cells.len();
        let ux = x as usize;
        let uy = y as usize;
        proof {
            assert(uy * w + ux < self.height * w) by (nonlinear_arith)
                requires ux < w, uy < self.height;
            assert(self.height * w == self.cells@.len());
            assert(uy * w <= uy * w + ux);
            assert(uy * w + ux < n);
        }
        self.cells[uy * w + ux]
    }

    /// Whether cell `(x, y)` is solid; out-of-range cells are.
    pub fn is_wall(&self, x: i64, y: i64) -> (r: bool)
        ensures
            r == self.wall_at(x as int, y as int),
    {
        self.cell(x, y) != EMPTY
    }

    /// The cell index `floor(p / (cell_size * ONE))` of a fixed-point
    /// coordinate.
    pub fn cell_index_of(&self, p: i64) -> (r: i64)
        ensures
            r == self.cell_index(p as int),
    {
        let span: i64 = self.cell_size() as i64 * ONE;
        if p >= 0 {
            p / span
        } else {
            let a: i64 = -(p + 1);
            let q: i64 = a / span;
            let m: i64 = a % span;
            proof {
                lemma_fundamental_div_mod(a as int, span as int);
                assert(a == span * q + m);
                let r = span - 1 - m;
                assert(p == (-q - 1) * span + r) by (nonlinear_arith)
                    requires a == q * span + m, a == -(p + 1), r == span - 1 - m;
                lemma_fundamental_div_mod_converse(p as int, span as int, -q - 1, r);
            }
            -q - 1
        }
    }
}

} // verus!
