use vstd::prelude::*;

verus! {

/// Side length of the LED matrix.
pub const GRID_SIZE: u8 = 5;

/// The seven (row, column) cells that light an arrow glyph for the direction
/// logged as `symbol`, on a 5x5 LED matrix. Any unrecognized symbol falls
/// back to a single center dot; with the classifier's four letters that
/// branch is unreachable, it is a defensive default only.
pub open spec fn spec_arrow_cells(symbol: char) -> Seq<(u8, u8)> {
    if symbol == 'N' {
        seq![(0u8, 2u8), (1u8, 1u8), (1u8, 2u8), (1u8, 3u8), (2u8, 2u8), (3u8, 2u8), (4u8, 2u8)]
    } else if symbol == 'S' {
        seq![(0u8, 2u8), (1u8, 2u8), (2u8, 2u8), (3u8, 1u8), (3u8, 2u8), (3u8, 3u8), (4u8, 2u8)]
    } else if symbol == 'E' {
        seq![(2u8, 0u8), (2u8, 1u8), (2u8, 2u8), (2u8, 3u8), (2u8, 4u8), (1u8, 3u8), (3u8, 3u8)]
    } else if symbol == 'W' {
        seq![(2u8, 0u8), (1u8, 1u8), (3u8, 1u8), (2u8, 1u8), (2u8, 2u8), (2u8, 3u8), (2u8, 4u8)]
    } else {
        seq![(2u8, 2u8), (2u8, 2u8), (2u8, 2u8), (2u8, 2u8), (2u8, 2u8), (2u8, 2u8), (2u8, 2u8)]
    }
}

/// Select the arrow glyph for a direction letter. Every returned cell lies
/// on the grid, so indexing a row array and a column array with it is safe.
pub fn arrow_cells(symbol: char) -> (cells: Vec<(u8, u8)>)
    ensures
        cells@ == spec_arrow_cells(symbol),
        cells@.len() == 7,
        forall|i: int|
            0 <= i < cells@.len() ==> cells@[i].0 < GRID_SIZE && cells@[i].1 < GRID_SIZE,
{
    let mut cells: Vec<(u8, u8)> = Vec::new();
    if symbol == 'N' {
        cells.push((0, 2));
        cells.push((1, 1));
        cells.push((1, 2));
        cells.push((1, 3));
        cells.push((2, 2));
        cells.push((3, 2));
        cells.push((4, 2));
    } else if symbol == 'S' {
        cells.push((0, 2));
        cells.push((1, 2));
        cells.push((2, 2));
        cells.push((3, 1));
        cells.push((3, 2));
        cells.push((3, 3));
        cells.push((4, 2));
    } else if symbol == 'E' {
        cells.push((2, 0));
        cells.push((2, 1));
        cells.push((2, 2));
        cells.push((2, 3));
        cells.push((2, 4));
        cells.push((1, 3));
        cells.push((3, 3));
    } else if symbol == 'W' {
        cells.push((2, 0));
        cells.push((1, 1));
        cells.push((3, 1));
        cells.push((2, 1));
        cells.push((2, 2));
        cells.push((2, 3));
        cells.push((2, 4));
    } else {
        cells.push((2, 2));
        cells.push((2, 2));
        cells.push((2, 2));
        cells.push((2, 2));
        cells.push((2, 2));
        cells.push((2, 2));
        cells.push((2, 2));
    }
    proof {
        assert(cells@ =~= spec_arrow_cells(symbol));
    }
    cells
}

} // verus!
