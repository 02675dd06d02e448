//! Where the keys of the two halves sit in the key map.

use vstd::prelude::*;

verus! {

/// Rows of one half's key matrix.
pub const HALF_ROWS: u8 = 6;

/// Columns of one half's key matrix.
pub const HALF_COLS: u8 = 8;

/// Rows of the key map.
pub const KEY_MAP_ROWS: u8 = 12;

/// Columns of the key map.
pub const KEY_MAP_COLS: u8 = 8;

/// The part of the key map that the other half covers.
#[derive(Clone, Copy, PartialEq, Eq, Structural, Debug)]
pub struct PeripheralMatrixConfig {
    /// Rows of its matrix.
    pub rows: u8,
    /// Columns of its matrix.
    pub cols: u8,
    /// The key map row of its first row.
    pub row_offset: u8,
    /// The key map column of its first column.
    pub col_offset: u8,
}

impl PeripheralMatrixConfig {
    /// The place in the key map of the key in a row and column of the other
    /// half's matrix.
    pub open spec fn place(self, row: int, col: int) -> (int, int) {
        (row + self.row_offset, col + self.col_offset)
    }

    /// Whether a place in the key map belongs to the other half.
    pub open spec fn covers(self, place: (int, int)) -> bool {
        exists|row: int, col: int|
            0 <= row < self.rows && 0 <= col < self.cols && #[trigger] self.place(row, col) == place
    }
}

/// Whether a place in the key map belongs to this half, whose matrix sits at
/// the origin.
pub open spec fn on_this_half(place: (int, int)) -> bool {
    0 <= place.0 < HALF_ROWS && 0 <= place.1 < HALF_COLS
}

/// Whether the key map has a place.
pub open spec fn in_key_map(place: (int, int)) -> bool {
    0 <= place.0 < KEY_MAP_ROWS && 0 <= place.1 < KEY_MAP_COLS
}

/// The right half: a matrix of the same size, below that of this half.
pub fn peripheral_matrix() -> (matrix: PeripheralMatrixConfig)
    ensures
        matrix == (PeripheralMatrixConfig { rows: 6, cols: 8, row_offset: 6, col_offset: 0 }),
{
    PeripheralMatrixConfig { rows: HALF_ROWS, cols: HALF_COLS, row_offset: HALF_ROWS, col_offset: 0 }
}

/// The two halves tile the key map: every place in it belongs to exactly one
/// half, and no half reaches outside it.
pub proof fn law_halves_tile_key_map(matrix: PeripheralMatrixConfig, place: (int, int))
    requires
        matrix == (PeripheralMatrixConfig { rows: 6, cols: 8, row_offset: 6, col_offset: 0 }),
    ensures
        in_key_map(place) <==> on_this_half(place) || matrix.covers(place),
        !(on_this_half(place) && matrix.covers(place)),
{
    if in_key_map(place) && !on_this_half(place) {
        assert(matrix.place(place.0 - 6, place.1) == place);
    }
}

/// The key map has twelve rows of eight keys; the first six rows are this
/// half's, and row `row` of the right half is row `row + 6` of the key map, with
/// the same columns.
pub proof fn law_right_half_is_six_rows_down(
    matrix: PeripheralMatrixConfig,
    row: int,
    col: int,
)
    requires
        matrix == (PeripheralMatrixConfig { rows: 6, cols: 8, row_offset: 6, col_offset: 0 }),
    ensures
        matrix.place(row, col) == (row + 6, col),
        on_this_half((row, col)) <==> 0 <= row < 6 && 0 <= col < 8,
        matrix.covers((row, col)) <==> 6 <= row < 12 && 0 <= col < 8,
        in_key_map((row, col)) <==> 0 <= row < 12 && 0 <= col < 8,
{
    if 6 <= row < 12 && 0 <= col < 8 {
        assert(matrix.place(row - 6, col) == (row, col));
    }
}

/// Two keys of the right half never share a place.
pub proof fn law_right_half_keys_are_apart(
    matrix: PeripheralMatrixConfig,
    row_a: int,
    col_a: int,
    row_b: int,
    col_b: int,
)
    requires
        matrix.place(row_a, col_a) == matrix.place(row_b, col_b),
    ensures
        row_a == row_b,
        col_a == col_b,
{
}

} // verus!
