use vstd::prelude::*;

verus! {

/// Which of a checkerboard's two alternating materials covers a cell.
#[derive(Clone, Copy, Debug, PartialEq, Eq, Structural)]
pub enum Tile {
    /// The cells whose coordinates sum to an even number.
    First,
    /// The cells whose coordinates sum to an odd number.
    Second,
}

/// A cell lies on a board of `dims.0` x `dims.1` cells.
pub open spec fn on_board(dims: (u32, u32), cell: (u32, u32)) -> bool {
    cell.0 < dims.0 && cell.1 < dims.1
}

/// The material of a cell follows the parity of the sum of its coordinates.
pub open spec fn tile_of(cell: (int, int)) -> Tile {
    if (cell.0 + cell.1) % 2 == 0 {
        Tile::First
    } else {
        Tile::Second
    }
}

/// The tile of the cell `cell` (the truncated coordinates of a hit point
/// along the board's two basis directions), or `None` where the cell lies
/// beyond the board's `dims`.
pub fn checker_tile(dims: (u32, u32), cell: (u32, u32)) -> (r: Option<Tile>)
    ensures
        r == (if on_board(dims, cell) {
            Some(tile_of((cell.0 as int, cell.1 as int)))
        } else {
            None
        }),
{
    if cell.0 >= dims.0 || cell.1 >= dims.1 {
        return None;
    }
    if cell.0 % 2 == cell.1 % 2 {
        Some(Tile::First)
    } else {
        Some(Tile::Second)
    }
}

/// Neighbouring cells along either basis direction of the board carry
/// different materials.
pub proof fn lemma_adjacent_cells_alternate(i: int, j: int)
    ensures
        tile_of((i, j)) != tile_of((i + 1, j)),
        tile_of((i, j)) != tile_of((i, j + 1)),
{
}

} // verus!
