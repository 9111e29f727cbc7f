//! Piece shapes as 4x4 occupancy masks, and rotation of pieces.
//!
//! A mask is a `u16` holding a 4x4 grid row by row, the most significant bit
//! being the cell at row 0, column 0. A set bit marks an occupied cell.
use vstd::prelude::*;
use vstd::string::StringSliceAdditionalSpecFns;

verus! {

/// The seven piece kinds.
#[derive(Clone, Copy, Debug, PartialEq, Eq, Structural)]
pub enum Tetromino {
    I,
    O,
    T,
    J,
    L,
    S,
    Z,
}

/// The four rotation states, in clockwise order.
#[derive(Clone, Copy, Debug, PartialEq, Eq, Structural)]
pub enum Rotation {
    North,
    East,
    South,
    West,
}

/// Position of a rotation state in the clockwise cycle North, East, South, West.
pub open spec fn rotation_index(r: Rotation) -> int {
    match r {
        Rotation::North => 0,
        Rotation::East => 1,
        Rotation::South => 2,
        Rotation::West => 3,
    }
}

/// The rotation state at a given position of the clockwise cycle, taken modulo 4.
pub open spec fn rotation_at(i: int) -> Rotation {
    let k = i % 4;
    if k == 0 {
        Rotation::North
    } else if k == 1 {
        Rotation::East
    } else if k == 2 {
        Rotation::South
    } else {
        Rotation::West
    }
}

/// One step clockwise.
pub open spec fn clockwise(r: Rotation) -> Rotation {
    rotation_at(rotation_index(r) + 1)
}

/// One step counter-clockwise, which is three steps clockwise.
pub open spec fn counter_clockwise(r: Rotation) -> Rotation {
    rotation_at(rotation_index(r) + 3)
}

/// The clockwise successor of a rotation state.
pub fn rotate_clockwise(rotation: Rotation) -> (r: Rotation)
    ensures
        r == clockwise(rotation),
{
    match rotation {
        Rotation::North => Rotation::East,
        Rotation::East => Rotation::South,
        Rotation::South => Rotation::West,
        Rotation::West => Rotation::North,
    }
}

/// The counter-clockwise successor of a rotation state.
pub fn rotate_counter_clockwise(rotation: Rotation) -> (r: Rotation)
    ensures
        r == counter_clockwise(rotation),
{
    match rotation {
        Rotation::North => Rotation::West,
        Rotation::West => Rotation::South,
        Rotation::South => Rotation::East,
        Rotation::East => Rotation::North,
    }
}

/// Four clockwise steps bring every rotation state back to itself.
pub proof fn lemma_four_clockwise_steps_identity(r: Rotation)
    ensures
        clockwise(clockwise(clockwise(clockwise(r)))) == r,
{
}

/// Clockwise and counter-clockwise rotation undo each other.
pub proof fn lemma_rotations_inverse(r: Rotation)
    ensures
        counter_clockwise(clockwise(r)) == r,
        clockwise(counter_clockwise(r)) == r,
{
}

/// The bit position, counted from the least significant bit, of the cell at
/// `row`, `col` of the 4x4 grid.
pub open spec fn cell_shift(row: u16, col: u16) -> u16 {
    (15 - (row * 4 + col)) as u16
}

/// The mask with only the cell at `row`, `col` set.
pub open spec fn cell_bit(row: u16, col: u16) -> u16 {
    1u16 << cell_shift(row, col)
}

/// Whether `mask` occupies the cell at `row`, `col`.
pub open spec fn occupied(mask: u16, row: u16, col: u16) -> bool {
    mask & cell_bit(row, col) != 0
}

/// Setting one cell of a mask leaves every other cell as it was.
proof fn lemma_set_cell(mask: u16, a: u16, b: u16, row: u16, col: u16)
    by (bit_vector)
    requires
        a < 4,
        b < 4,
        row < 4,
        col < 4,
    ensures
        occupied(mask | cell_bit(a, b), row, col) == (occupied(mask, row, col) || (a == row && b
            == col)),
{
}

/// The empty mask occupies no cell.
proof fn lemma_empty_mask(row: u16, col: u16)
    by (bit_vector)
    requires
        row < 4,
        col < 4,
    ensures
        !occupied(0, row, col),
{
}

/// The byte, an ASCII `x`, that marks an occupied cell in a glyph grid.
pub const GLYPH_OCCUPIED: u8 = 120;

/// Whether the glyph grid `rows` marks the cell at `row`, `col` with an `x`.
pub open spec fn glyph_cell(rows: [&str; 4], row: int, col: int) -> bool {
    rows[row].spec_bytes()[col] == GLYPH_OCCUPIED
}

/// Every row of the glyph grid has at least four bytes.
pub open spec fn glyph_rows_wide(rows: [&str; 4]) -> bool {
    forall|i: int| 0 <= i < 4 ==> #[trigger] rows[i].spec_bytes().len() >= 4
}

/// `mask` occupies exactly the cells that the glyph grid `rows` marks.
pub open spec fn mask_matches_glyphs(mask: u16, rows: [&str; 4]) -> bool {
    forall|row: u16, col: u16|
        row < 4 && col < 4 ==> #[trigger] occupied(mask, row, col) == glyph_cell(
            rows,
            row as int,
            col as int,
        )
}

/// Reads one 4x4 glyph grid: an `x` in the first four bytes of a row marks an
/// occupied cell, any other byte a free one.
fn glyph_grid_mask(rows: [&str; 4]) -> (mask: u16)
    requires
        glyph_rows_wide(rows),
    ensures
        mask_matches_glyphs(mask, rows),
{
    let mut mask: u16 = 0;
    proof {
        assert forall|r: u16, c: u16| r < 4 && c < 4 implies !occupied(mask, r, c) by {
            lemma_empty_mask(r, c);
        }
    }
    let mut row: u16 = 0;
    while row < 4
        invariant
            row <= 4,
            glyph_rows_wide(rows),
            forall|r: u16, c: u16|
                r < 4 && c < 4 ==> #[trigger] occupied(mask, r, c) == (r < row && glyph_cell(
                    rows,
                    r as int,
                    c as int,
                )),
        decreases 4 - row,
    {
        let bytes = rows[row as usize].as_bytes();
        assert(bytes@.len() >= 4);
        let mut col: u16 = 0;
        while col < 4
            invariant
                col <= 4,
                row < 4,
                bytes@ == rows[row as int].spec_bytes(),
                bytes@.len() >= 4,
                forall|r: u16, c: u16|
                    r < 4 && c < 4 ==> #[trigger] occupied(mask, r, c) == ((r < row || (r == row
                        && c < col)) && glyph_cell(rows, r as int, c as int)),
            decreases 4 - col,
        {
            if bytes[col as usize] == GLYPH_OCCUPIED {
                let ghost prev = mask;
                mask = mask | (1u16 << (15 - (row * 4 + col)));
                proof {
                    assert forall|r: u16, c: u16| r < 4 && c < 4 implies #[trigger] occupied(
                        mask,
                        r,
                        c,
                    ) == (occupied(prev, r, c) || (row == r && col == c)) by {
                        lemma_set_cell(prev, row, col, r, c);
                    }
                }
            }
            col = col + 1;
        }
        row = row + 1;
    }
    mask
}

/// Builds the four masks of a piece, one per rotation state, from glyph grids
/// drawn with `x` for an occupied cell.
pub fn build_tetromino_bitmasks(
    north: [&str; 4],
    east: [&str; 4],
    south: [&str; 4],
    west: [&str; 4],
) -> (masks: [u16; 4])
    requires
        glyph_rows_wide(north),
        glyph_rows_wide(east),
        glyph_rows_wide(south),
        glyph_rows_wide(west),
    ensures
        mask_matches_glyphs(masks[0], north),
        mask_matches_glyphs(masks[1], east),
        mask_matches_glyphs(masks[2], south),
        mask_matches_glyphs(masks[3], west),
{
    [glyph_grid_mask(north), glyph_grid_mask(east), glyph_grid_mask(south), glyph_grid_mask(west)]
}

/// The shape table: the mask of each piece in each rotation state. Each nibble
/// of the hexadecimal literal is one row, its highest bit the leftmost column.
pub open spec fn occupancy(tetromino: Tetromino, rotation: Rotation) -> u16 {
    match tetromino {
        Tetromino::I => match rotation {
            Rotation::North => 0x0F00,
            Rotation::East => 0x2222,
            Rotation::South => 0x00F0,
            Rotation::West => 0x4444,
        },
        Tetromino::O => 0x6600,
        Tetromino::T => match rotation {
            Rotation::North => 0x4E00,
            Rotation::East => 0x4640,
            Rotation::South => 0x0E40,
            Rotation::West => 0x4C40,
        },
        Tetromino::J => match rotation {
            Rotation::North => 0x8E00,
            Rotation::East => 0x6440,
            Rotation::South => 0x0E20,
            Rotation::West => 0x44C0,
        },
        Tetromino::L => match rotation {
            Rotation::North => 0x2E00,
            Rotation::East => 0x4460,
            Rotation::South => 0x0E80,
            Rotation::West => 0xC440,
        },
        Tetromino::S => match rotation {
            Rotation::North => 0x6C00,
            Rotation::East => 0x4620,
            Rotation::South => 0x06C0,
            Rotation::West => 0x8C40,
        },
        Tetromino::Z => match rotation {
            Rotation::North => 0xC600,
            Rotation::East => 0x2640,
            Rotation::South => 0x0C60,
            Rotation::West => 0x4C80,
        },
    }
}

/// The mask of a piece in a rotation state, looked up in the shape table.
pub fn tetromino_bitmask(tetromino: Tetromino, rotation: Rotation) -> (mask: u16)
    ensures
        mask == occupancy(tetromino, rotation),
{
    match tetromino {
        Tetromino::I => match rotation {
            // ----    --x-    ----    -x--
            // xxxx    --x-    ----    -x--
            // ----    --x-    xxxx    -x--
            // ----    --x-    ----    -x--
            Rotation::North => 0x0F00,
            Rotation::East => 0x2222,
            Rotation::South => 0x00F0,
            Rotation::West => 0x4444,
        },
        // The same in every rotation state:
        // -xx-
        // -xx-
        // ----
        // ----
        Tetromino::O => match rotation {
            Rotation::North => 0x6600,
            Rotation::East => 0x6600,
            Rotation::South => 0x6600,
            Rotation::West => 0x6600,
        },
        Tetromino::T => match rotation {
            // -x--    -x--    ----    -x--
            // xxx-    -xx-    xxx-    xx--
            // ----    -x--    -x--    -x--
            // ----    ----    ----    ----
            Rotation::North => 0x4E00,
            Rotation::East => 0x4640,
            Rotation::South => 0x0E40,
            Rotation::West => 0x4C40,
        },
        Tetromino::J => match rotation {
            // x---    -xx-    ----    -x--
            // xxx-    -x--    xxx-    -x--
            // ----    -x--    --x-    xx--
            // ----    ----    ----    ----
            Rotation::North => 0x8E00,
            Rotation::East => 0x6440,
            Rotation::South => 0x0E20,
            Rotation::West => 0x44C0,
        },
        Tetromino::L => match rotation {
            // --x-    -x--    ----    xx--
            // xxx-    -x--    xxx-    -x--
            // ----    -xx-    x---    -x--
            // ----    ----    ----    ----
            Rotation::North => 0x2E00,
            Rotation::East => 0x4460,
            Rotation::South => 0x0E80,
            Rotation::West => 0xC440,
        },
        Tetromino::S => match rotation {
            // -xx-    -x--    ----    x---
            // xx--    -xx-    -xx-    xx--
            // ----    --x-    xx--    -x--
            // ----    ----    ----    ----
            Rotation::North => 0x6C00,
            Rotation::East => 0x4620,
            Rotation::South => 0x06C0,
            Rotation::West => 0x8C40,
        },
        Tetromino::Z => match rotation {
            // xx--    --x-    ----    -x--
            // -xx-    -xx-    xx--    xx--
            // ----    -x--    -xx-    x---
            // ----    ----    ----    ----
            Rotation::North => 0xC600,
            Rotation::East => 0x2640,
            Rotation::South => 0x0C60,
            Rotation::West => 0x4C80,
        },
    }
}

/// 1 where `mask` occupies the cell at `row`, `col`, else 0.
pub open spec fn cell_value(mask: u16, row: u16, col: u16) -> int {
    if occupied(mask, row, col) {
        1
    } else {
        0
    }
}

/// The number of occupied cells in one row of `mask`.
pub open spec fn row_count(mask: u16, row: u16) -> int {
    cell_value(mask, row, 0) + cell_value(mask, row, 1) + cell_value(mask, row, 2) + cell_value(
        mask,
        row,
        3,
    )
}

/// The number of occupied cells of `mask`.
pub open spec fn cell_count(mask: u16) -> int {
    row_count(mask, 0) + row_count(mask, 1) + row_count(mask, 2) + row_count(mask, 3)
}

/// Cell counts of the masks of the shape table.
proof fn lemma_table_cell_counts()
    by (bit_vector)
    ensures
        cell_count(0x0F00u16) == 4,
        cell_count(0x2222u16) == 4,
        cell_count(0x00F0u16) == 4,
        cell_count(0x4444u16) == 4,
        cell_count(0x6600u16) == 4,
        cell_count(0x4E00u16) == 4,
        cell_count(0x4640u16) == 4,
        cell_count(0x0E40u16) == 4,
        cell_count(0x4C40u16) == 4,
        cell_count(0x8E00u16) == 4,
        cell_count(0x6440u16) == 4,
        cell_count(0x0E20u16) == 4,
        cell_count(0x44C0u16) == 4,
        cell_count(0x2E00u16) == 4,
        cell_count(0x4460u16) == 4,
        cell_count(0x0E80u16) == 4,
        cell_count(0xC440u16) == 4,
        cell_count(0x6C00u16) == 4,
        cell_count(0x4620u16) == 4,
        cell_count(0x06C0u16) == 4,
        cell_count(0x8C40u16) == 4,
        cell_count(0xC600u16) == 4,
        cell_count(0x2640u16) == 4,
        cell_count(0x0C60u16) == 4,
        cell_count(0x4C80u16) == 4,
{
}

/// Every piece occupies exactly four cells in every rotation state, and the O
/// piece has the same mask in all of them.
pub proof fn lemma_occupancy_four_cells(tetromino: Tetromino, rotation: Rotation)
    ensures
        cell_count(occupancy(tetromino, rotation)) == 4,
        occupancy(Tetromino::O, rotation) == occupancy(Tetromino::O, Rotation::North),
{
    lemma_table_cell_counts();
}

/// Whether `mask` occupies some cell of row `row`.
pub open spec fn row_occupied(mask: u16, row: u16) -> bool {
    occupied(mask, row, 0) || occupied(mask, row, 1) || occupied(mask, row, 2) || occupied(
        mask,
        row,
        3,
    )
}

/// Whether `mask` occupies some cell of column `col`.
pub open spec fn col_occupied(mask: u16, col: u16) -> bool {
    occupied(mask, 0, col) || occupied(mask, 1, col) || occupied(mask, 2, col) || occupied(
        mask,
        3,
        col,
    )
}

/// The topmost occupied row of `mask`, or 4 where the mask is empty.
pub open spec fn min_row(mask: u16) -> u16 {
    if row_occupied(mask, 0) {
        0
    } else if row_occupied(mask, 1) {
        1
    } else if row_occupied(mask, 2) {
        2
    } else if row_occupied(mask, 3) {
        3
    } else {
        4
    }
}

/// The leftmost occupied column of `mask`, or 4 where the mask is empty.
pub open spec fn min_col(mask: u16) -> u16 {
    if col_occupied(mask, 0) {
        0
    } else if col_occupied(mask, 1) {
        1
    } else if col_occupied(mask, 2) {
        2
    } else if col_occupied(mask, 3) {
        3
    } else {
        4
    }
}

/// Reading a row or a column through a mask of four cells.
proof fn lemma_line_masks(mask: u16, i: u16)
    by (bit_vector)
    requires
        i < 4,
    ensures
        (mask & (0xF000u16 >> ((i * 4) as u16))) != 0 == row_occupied(mask, i),
        (mask & (0x8888u16 >> i)) != 0 == col_occupied(mask, i),
        mask != 0 ==> row_occupied(mask, 0) || row_occupied(mask, 1) || row_occupied(mask, 2)
            || row_occupied(mask, 3),
{
}

/// Whether `mask` occupies some cell of row `row`.
fn row_has_cell(mask: u16, row: u16) -> (r: bool)
    requires
        row < 4,
    ensures
        r == row_occupied(mask, row),
{
    proof {
        lemma_line_masks(mask, row);
    }
    mask & (0xF000u16 >> (row * 4)) != 0
}

/// Whether `mask` occupies some cell of column `col`.
fn col_has_cell(mask: u16, col: u16) -> (r: bool)
    requires
        col < 4,
    ensures
        r == col_occupied(mask, col),
{
    proof {
        lemma_line_masks(mask, col);
    }
    mask & (0x8888u16 >> col) != 0
}

/// Moves the occupied cells of `mask` up and left, together, until some cell
/// lies in the top row and some cell in the leftmost column. An empty mask
/// stays empty.
pub fn normalize_mask(mask: u16) -> (new: u16)
    ensures
        forall|r: u16, c: u16|
            r < 4 && c < 4 ==> #[trigger] occupied(new, r, c) == (r + min_row(mask) < 4 && c
                + min_col(mask) < 4 && occupied(
                mask,
                (r + min_row(mask)) as u16,
                (c + min_col(mask)) as u16,
            )),
        mask == 0 ==> new == 0,
        mask != 0 ==> min_row(new) == 0 && min_col(new) == 0,
{
    let mut min_y: u16 = 0;
    while min_y < 4 && !row_has_cell(mask, min_y)
        invariant
            min_y <= 4,
            forall|r: u16| r < min_y ==> !#[trigger] row_occupied(mask, r),
        decreases 4 - min_y,
    {
        min_y = min_y + 1;
    }
    let mut min_x: u16 = 0;
    while min_x < 4 && !col_has_cell(mask, min_x)
        invariant
            min_x <= 4,
            forall|c: u16| c < min_x ==> !#[trigger] col_occupied(mask, c),
        decreases 4 - min_x,
    {
        min_x = min_x + 1;
    }
    assert(min_y == min_row(mask));
    assert(min_x == min_col(mask));

    let mut new: u16 = 0;
    proof {
        assert forall|r: u16, c: u16| r < 4 && c < 4 implies !occupied(new, r, c) by {
            lemma_empty_mask(r, c);
        }
    }
    let mut y: u16 = 0;
    while y < 4
        invariant
            y <= 4,
            min_y == min_row(mask),
            min_x == min_col(mask),
            forall|r: u16, c: u16|
                r < 4 && c < 4 ==> #[trigger] occupied(new, r, c) == (r + min_y < 4 && c + min_x
                    < 4 && r + min_y < y && occupied(mask, (r + min_y) as u16, (c + min_x) as u16)),
        decreases 4 - y,
    {
        let mut x: u16 = 0;
        while x < 4
            invariant
                x <= 4,
                y < 4,
                min_y == min_row(mask),
                min_x == min_col(mask),
                forall|r: u16, c: u16|
                    r < 4 && c < 4 ==> #[trigger] occupied(new, r, c) == (r + min_y < 4 && c + min_x
                        < 4 && (r + min_y < y || (r + min_y == y && c + min_x < x)) && occupied(
                        mask,
                        (r + min_y) as u16,
                        (c + min_x) as u16,
                    )),
            decreases 4 - x,
        {
            let bit: u16 = 1u16 << (15 - (y * 4 + x));
            if mask & bit != 0 {
                assert(row_occupied(mask, y));
                assert(col_occupied(mask, x));
                let nx = x - min_x;
                let ny = y - min_y;
                let ghost prev = new;
                new = new | (1u16 << (15 - (ny * 4 + nx)));
                proof {
                    assert forall|r: u16, c: u16| r < 4 && c < 4 implies #[trigger] occupied(
                        new,
                        r,
                        c,
                    ) == (occupied(prev, r, c) || (ny == r && nx == c)) by {
                        lemma_set_cell(prev, ny, nx, r, c);
                    }
                }
            }
            x = x + 1;
        }
        y = y + 1;
    }
    proof {
        lemma_line_masks(mask, 0);
        lemma_line_masks(new, 0);
    }
    new
}

/// Position of the cell at `row`, `col` in row-major order.
pub open spec fn cell_index(cell: (u16, u16)) -> int {
    cell.0 * 4 + cell.1
}

/// The occupied cells of `mask` as `(row, col)` pairs, in row-major order.
pub fn occupied_cells(mask: u16) -> (cells: Vec<(u16, u16)>)
    ensures
        forall|i: int|
            0 <= i < cells@.len() ==> #[trigger] cells@[i].0 < 4 && cells@[i].1 < 4 && occupied(
                mask,
                cells@[i].0,
                cells@[i].1,
            ),
        forall|i: int, j: int|
            0 <= i < j < cells@.len() ==> cell_index(#[trigger] cells@[i]) < cell_index(
                #[trigger] cells@[j],
            ),
        forall|row: u16, col: u16|
            row < 4 && col < 4 && #[trigger] occupied(mask, row, col) ==> cells@.contains(
                (row, col),
            ),
{
    let mut cells: Vec<(u16, u16)> = Vec::new();
    let mut row: u16 = 0;
    while row < 4
        invariant
            row <= 4,
            forall|i: int|
                0 <= i < cells@.len() ==> #[trigger] cells@[i].0 < row && cells@[i].1 < 4
                    && occupied(mask, cells@[i].0, cells@[i].1),
            forall|i: int, j: int|
                0 <= i < j < cells@.len() ==> cell_index(#[trigger] cells@[i]) < cell_index(
                    #[trigger] cells@[j],
                ),
            forall|r: u16, c: u16|
                r < row && c < 4 && #[trigger] occupied(mask, r, c) ==> cells@.contains((r, c)),
        decreases 4 - row,
    {
        let mut col: u16 = 0;
        while col < 4
            invariant
                col <= 4,
                row < 4,
                forall|i: int|
                    0 <= i < cells@.len() ==> #[trigger] cell_index(cells@[i]) < row * 4 + col
                        && cells@[i].0 <= row && cells@[i].1 < 4 && occupied(
                        mask,
                        cells@[i].0,
                        cells@[i].1,
                    ),
                forall|i: int, j: int|
                    0 <= i < j < cells@.len() ==> cell_index(#[trigger] cells@[i]) < cell_index(
                        #[trigger] cells@[j],
                    ),
                forall|r: u16, c: u16|
                    (r < row || (r == row && c < col)) && c < 4 && #[trigger] occupied(mask, r, c)
                        ==> cells@.contains((r, c)),
            decreases 4 - col,
        {
            let bit: u16 = 1u16 << (15 - (row * 4 + col));
            if mask & bit != 0 {
                let ghost prev = cells@;
                cells.push((row, col));
                proof {
                    assert forall|r: u16, c: u16|
                        (r < row || (r == row && c < col + 1)) && c < 4 && #[trigger] occupied(
                            mask,
                            r,
                            c,
                        ) implies cells@.contains((r, c)) by {
                        if r == row && c == col {
                            assert(cells@[prev.len() as int] == (r, c));
                        } else {
                            let k = choose|k: int| 0 <= k < prev.len() && prev[k] == (r, c);
                            assert(cells@[k] == (r, c));
                        }
                    }
                }
            }
            col = col + 1;
        }
        assert forall|i: int| 0 <= i < cells@.len() implies #[trigger] cells@[i].0 < row + 1
            && cells@[i].1 < 4 && occupied(mask, cells@[i].0, cells@[i].1) by {
            assert(cell_index(cells@[i]) < row * 4 + 4);
        }
        row = row + 1;
    }
    cells
}

} // verus!
