//! The grid index: a bidirectional mapping between 2D coordinates and a
//! linear cell index over the fixed-size rectangular map, together with the
//! cell kinds that the map holds.
use vstd::prelude::*;

verus! {

/// Width of the map, in cells.
pub const WIDTH: i32 = 65;

/// Height of the map, in cells.
pub const HEIGHT: i32 = 52;

/// Number of cells in the map.
pub open spec fn grid_len() -> int {
    WIDTH * HEIGHT
}

/// What a cell of the map is.
#[derive(PartialEq, Eq, Structural, Copy, Clone, Debug)]
pub enum TileType {
    Wall,
    Floor,
}

/// True when (x, y) lies on the map.
pub open spec fn in_bounds(x: int, y: int) -> bool {
    0 <= x < WIDTH && 0 <= y < HEIGHT
}

/// The linear index of (x, y), row-major.
pub open spec fn spec_xy_idx(x: int, y: int) -> int {
    y * WIDTH + x
}

/// The x coordinate of a linear index.
pub open spec fn spec_idx_x(idx: int) -> int {
    idx % (WIDTH as int)
}

/// The y coordinate of a linear index.
pub open spec fn spec_idx_y(idx: int) -> int {
    idx / (WIDTH as int)
}

/// Linear index of the cell at (x, y). Callers must pass in-bounds
/// coordinates; there is no error path.
pub fn xy_idx(x: i32, y: i32) -> (idx: usize)
    requires
        in_bounds(x as int, y as int),
    ensures
        idx == spec_xy_idx(x as int, y as int),
        idx < grid_len(),
{
    (y as usize) * (WIDTH as usize) + (x as usize)
}

/// Coordinates of the cell with the given linear index.
pub fn idx_xy(idx: usize) -> (pos: (i32, i32))
    requires
        idx < grid_len(),
    ensures
        pos.0 == spec_idx_x(idx as int),
        pos.1 == spec_idx_y(idx as int),
        in_bounds(pos.0 as int, pos.1 as int),
{
    ((idx as i32) % WIDTH, (idx as i32) / WIDTH)
}

/// Indexing is a bijection: converting in-bounds coordinates to a linear
/// index and back yields the same coordinates.
pub proof fn lemma_index_round_trip(x: int, y: int)
    requires
        in_bounds(x, y),
    ensures
        spec_idx_x(spec_xy_idx(x, y)) == x,
        spec_idx_y(spec_xy_idx(x, y)) == y,
{
    assert((y * WIDTH + x) % (WIDTH as int) == x && (y * WIDTH + x) / (WIDTH as int) == y)
        by (nonlinear_arith)
        requires
            0 <= x < WIDTH,
            0 <= y,
    ;
}

} // verus!
