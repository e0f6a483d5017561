//! Magnetic fields defined on a grid of precalculated values.
//!
//! The grid is ordered as a linear array, with elements ordered in priority z, y, x:
//! cells with dz = 1 are adjacent in memory.
use vstd::prelude::*;

verus! {

/// A cell coordinate clamped into a grid axis of `n` cells: first raised to at least 0,
/// then lowered to at most `n - 1`.
pub open spec fn spec_clamp_cell(c: int, n: int) -> int {
    let raised = if c < 0 {
        0
    } else {
        c
    };
    if raised < n - 1 {
        raised
    } else {
        n - 1
    }
}

/// Number of cells in a grid of `extent_cells` cells along (x, y, z).
pub open spec fn spec_cell_count(extent_cells: [i32; 3]) -> int {
    extent_cells[0] * extent_cells[1] * extent_cells[2]
}

/// Position in the linear grid array of the cell with coordinates `cell`, after each
/// coordinate is clamped into the grid.
pub open spec fn spec_grid_index(extent_cells: [i32; 3], cell: [i32; 3]) -> int {
    let x = spec_clamp_cell(cell[0] as int, extent_cells[0] as int);
    let y = spec_clamp_cell(cell[1] as int, extent_cells[1] as int);
    let z = spec_clamp_cell(cell[2] as int, extent_cells[2] as int);
    extent_cells[2] * (extent_cells[1] * x + y) + z
}

/// A grid whose extent is at least one cell along each axis, with a cell count that fits
/// the index type.
pub open spec fn valid_extent(extent_cells: [i32; 3]) -> bool {
    &&& extent_cells[0] >= 1
    &&& extent_cells[1] >= 1
    &&& extent_cells[2] >= 1
    &&& spec_cell_count(extent_cells) <= i32::MAX
}

/// The flattened index of clamped cell coordinates lies inside the grid.
pub proof fn lemma_grid_index_in_bounds(extent_cells: [i32; 3], cell: [i32; 3])
    requires
        valid_extent(extent_cells),
    ensures
        0 <= extent_cells[1] * spec_clamp_cell(cell[0] as int, extent_cells[0] as int)
            + spec_clamp_cell(cell[1] as int, extent_cells[1] as int) < extent_cells[0]
            * extent_cells[1],
        extent_cells[0] * extent_cells[1] <= spec_cell_count(extent_cells),
        0 <= spec_grid_index(extent_cells, cell) < spec_cell_count(extent_cells),
{
    let n0 = extent_cells[0] as int;
    let n1 = extent_cells[1] as int;
    let n2 = extent_cells[2] as int;
    let x = spec_clamp_cell(cell[0] as int, n0);
    let y = spec_clamp_cell(cell[1] as int, n1);
    let z = spec_clamp_cell(cell[2] as int, n2);
    assert(0 <= x < n0 && 0 <= y < n1 && 0 <= z < n2);
    assert(0 <= n1 * x + y < n0 * n1) by (nonlinear_arith)
        requires
            0 <= x < n0,
            0 <= y < n1,
            n1 >= 1,
    {
        assert(n1 * x <= n1 * (n0 - 1));
    }
    assert(n0 * n1 <= n0 * n1 * n2) by (nonlinear_arith)
        requires
            n0 >= 1,
            n1 >= 1,
            n2 >= 1,
    ;
    let w = n1 * x + y;
    assert(0 <= n2 * w + z < n0 * n1 * n2) by (nonlinear_arith)
        requires
            0 <= w < n0 * n1,
            0 <= z < n2,
            n2 >= 1,
    {
        assert(n2 * w <= n2 * (n0 * n1 - 1));
        assert(n2 * (n0 * n1) == n0 * n1 * n2);
    }
}

fn clamp_cell(c: i32, n: i32) -> (r: i32)
    requires
        n >= 1,
    ensures
        r == spec_clamp_cell(c as int, n as int),
{
    let raised = if c < 0 {
        0
    } else {
        c
    };
    if raised < n - 1 {
        raised
    } else {
        n - 1
    }
}

/// Index into the linear grid array of the cell a position falls into.
///
/// `cell` holds the cell coordinates along (x, y, z) that the position's fraction of the
/// grid's spatial extent gives, truncated to integers; each is clamped into the grid
/// before the coordinates are flattened, z varying fastest.
pub fn grid_index(extent_cells: [i32; 3], cell: [i32; 3]) -> (index: i32)
    requires
        valid_extent(extent_cells),
    ensures
        index == spec_grid_index(extent_cells, cell),
        0 <= index < spec_cell_count(extent_cells),
{
    proof {
        lemma_grid_index_in_bounds(extent_cells, cell);
    }
    let x = clamp_cell(cell[0], extent_cells[0]);
    let y = clamp_cell(cell[1], extent_cells[1]);
    let z = clamp_cell(cell[2], extent_cells[2]);
    let row = extent_cells[1] * x + y;
    extent_cells[2] * row + z
}

/// The field stored for the cell a position falls into (see [grid_index]).
///
/// `grid` holds one value per cell of the grid.
pub fn get_field<T: Copy>(grid: &Vec<T>, extent_cells: [i32; 3], cell: [i32; 3]) -> (field: T)
    requires
        valid_extent(extent_cells),
        grid.len() == spec_cell_count(extent_cells),
    ensures
        field == grid@[spec_grid_index(extent_cells, cell)],
{
    let index = grid_index(extent_cells, cell);
    grid[index as usize]
}

/// Cells inside the grid are laid out with z varying fastest, then y, then x: the first
/// cell is at index 0, a step along z moves one place, a step along y moves past a whole
/// z-column, and a step along x past a whole y-z plane.
pub proof fn lemma_grid_index_strides(extent_cells: [i32; 3], x: i32, y: i32, z: i32)
    requires
        valid_extent(extent_cells),
        0 <= x < extent_cells[0],
        0 <= y < extent_cells[1],
        0 <= z < extent_cells[2],
    ensures
        spec_grid_index(extent_cells, [0i32, 0i32, 0i32]) == 0,
        z + 1 < extent_cells[2] ==> spec_grid_index(extent_cells, [x, y, (z + 1) as i32]) == spec_grid_index(
            extent_cells,
            [x, y, z],
        ) + 1,
        y + 1 < extent_cells[1] ==> spec_grid_index(extent_cells, [x, (y + 1) as i32, z]) == spec_grid_index(
            extent_cells,
            [x, y, z],
        ) + extent_cells[2],
        x + 1 < extent_cells[0] ==> spec_grid_index(extent_cells, [(x + 1) as i32, y, z]) == spec_grid_index(
            extent_cells,
            [x, y, z],
        ) + extent_cells[1] * extent_cells[2],
{
    let n1 = extent_cells[1] as int;
    let n2 = extent_cells[2] as int;
    assert(n2 * (n1 * 0 + 0) == 0) by (nonlinear_arith);
    assert(n2 * (n1 * x + (y + 1)) == n2 * (n1 * x + y) + n2) by (nonlinear_arith);
    assert(n2 * (n1 * (x + 1) + y) == n2 * (n1 * x + y) + n1 * n2) by (nonlinear_arith);
}

} // verus!
