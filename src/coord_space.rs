//! Integer coordinate spaces of the playfield and their exact relations.
//!
//! The output surface takes fractional coordinates. An octad point `(x, y)`
//! lies at `(x / 2, y / 4)` in output coordinates, a twoxel point at
//! `(x, y / 2)` and a block point at `(2 * x, y)`. The octad grid is the finest
//! of the three, so each conversion below goes to octad units, where it is
//! exact; the final division happens where the output coordinates are made.
use vstd::prelude::*;

verus! {

/// A point of the twoxel grid: one unit across is one output unit, one unit
/// down is half of one.
#[derive(Clone, Copy, Debug, PartialEq, Eq, Structural)]
pub struct TwoxelCoords(pub i16, pub i16);

/// A point of the octad grid: one unit across is half an output unit, one unit
/// down is a quarter of one.
#[derive(Clone, Copy, Debug, PartialEq, Eq, Structural)]
pub struct OctadCoords(pub i16, pub i16);

/// A point of the block grid: one unit is one board cell, two output units
/// across and one down.
#[derive(Clone, Copy, Debug, PartialEq, Eq, Structural)]
pub struct TetrisBlockCoords(pub i16, pub i16);

/// Octad units per twoxel unit, on either axis.
pub open spec fn twoxel_octad_spec(x: int, y: int) -> (int, int) {
    (2 * x, 2 * y)
}

/// Twoxel units per block unit, on either axis.
pub open spec fn block_twoxel_spec(x: int, y: int) -> (int, int) {
    (2 * x, 2 * y)
}

/// Octad units per block unit, on either axis.
pub open spec fn block_octad_spec(x: int, y: int) -> (int, int) {
    (4 * x, 4 * y)
}

/// The spec function's pair as machine integers.
pub open spec fn as_int_pair(p: (i32, i32)) -> (int, int) {
    (p.0 as int, p.1 as int)
}

/// A twoxel point in octad units.
pub fn twoxel_to_octad(c: TwoxelCoords) -> (r: (i32, i32))
    ensures
        as_int_pair(r) == twoxel_octad_spec(c.0 as int, c.1 as int),
{
    (2 * (c.0 as i32), 2 * (c.1 as i32))
}

/// A block point in twoxel units: the top left twoxel of the block.
pub fn block_to_twoxel(c: TetrisBlockCoords) -> (r: (i32, i32))
    ensures
        as_int_pair(r) == block_twoxel_spec(c.0 as int, c.1 as int),
{
    (2 * (c.0 as i32), 2 * (c.1 as i32))
}

/// A block point in octad units.
pub fn block_to_octad(c: TetrisBlockCoords) -> (r: (i32, i32))
    ensures
        as_int_pair(r) == block_octad_spec(c.0 as int, c.1 as int),
{
    (4 * (c.0 as i32), 4 * (c.1 as i32))
}

/// The four twoxels that draw one block, in the order top left, top right,
/// bottom left, bottom right.
pub fn block_twoxels(c: TetrisBlockCoords) -> (r: [(i32, i32); 4])
    ensures
        as_int_pair(r[0]) == block_twoxel_spec(c.0 as int, c.1 as int),
        as_int_pair(r[1]) == (block_twoxel_spec(c.0 as int, c.1 as int).0 + 1, block_twoxel_spec(
            c.0 as int,
            c.1 as int,
        ).1),
        as_int_pair(r[2]) == (block_twoxel_spec(c.0 as int, c.1 as int).0, block_twoxel_spec(
            c.0 as int,
            c.1 as int,
        ).1 + 1),
        as_int_pair(r[3]) == (block_twoxel_spec(c.0 as int, c.1 as int).0 + 1, block_twoxel_spec(
            c.0 as int,
            c.1 as int,
        ).1 + 1),
{
    let (x, y) = block_to_twoxel(c);
    [(x, y), (x + 1, y), (x, y + 1), (x + 1, y + 1)]
}

/// Each conversion is linear: one block step right moves four octads (two
/// output units) right, one twoxel step down moves two octads (half an output
/// unit) down, and any step elsewhere leaves the other axis alone.
pub proof fn lemma_conversions_linear(x: int, y: int)
    ensures
        block_octad_spec(x + 1, y) == (block_octad_spec(x, y).0 + 4, block_octad_spec(x, y).1),
        block_octad_spec(x, y + 1) == (block_octad_spec(x, y).0, block_octad_spec(x, y).1 + 4),
        twoxel_octad_spec(x + 1, y) == (twoxel_octad_spec(x, y).0 + 2, twoxel_octad_spec(x, y).1),
        twoxel_octad_spec(x, y + 1) == (twoxel_octad_spec(x, y).0, twoxel_octad_spec(x, y).1 + 2),
        block_twoxel_spec(x + 1, y) == (block_twoxel_spec(x, y).0 + 2, block_twoxel_spec(x, y).1),
        block_twoxel_spec(x, y + 1) == (block_twoxel_spec(x, y).0, block_twoxel_spec(x, y).1 + 2),
{
}

/// Going from blocks to twoxels and then to octads lands where going from
/// blocks to octads directly does.
pub proof fn lemma_conversions_compose(x: int, y: int)
    ensures
        twoxel_octad_spec(block_twoxel_spec(x, y).0, block_twoxel_spec(x, y).1)
            == block_octad_spec(x, y),
{
}

/// Whether the octad point `(x, y)` lies on the outline of the rectangle from
/// `(0, 0)` to `(width, height)`, both corners included.
pub fn on_frame_border(x: i16, y: i16, width: i16, height: i16) -> (r: bool)
    ensures
        r == (0 <= x <= width && 0 <= y <= height && (x == 0 || x == width || y == 0 || y
            == height)),
{
    0 <= x && x <= width && 0 <= y && y <= height && (x == 0 || x == width || y == 0 || y
        == height)
}

} // verus!
