//! The piece under the player's control: how commands change it and which
//! board cells it covers.
use vstd::prelude::*;
use crate::coord_space::TetrisBlockCoords;
use crate::tetromino::{
    Rotation,
    Tetromino,
    clockwise,
    counter_clockwise,
    occupancy,
    occupied,
    occupied_cells,
    rotate_clockwise,
    rotate_counter_clockwise,
    tetromino_bitmask,
};

verus! {

/// A piece on the board: its kind, its rotation state and the block position of
/// the top left corner of its 4x4 frame.
#[derive(Clone, Copy, Debug, PartialEq, Eq, Structural)]
pub struct PieceState {
    pub tetromino: Tetromino,
    pub rotation: Rotation,
    pub x: i16,
    pub y: i16,
}

/// What the player or the fall timer asks of the piece.
#[derive(Clone, Copy, Debug, PartialEq, Eq, Structural)]
pub enum PieceCommand {
    RotateClockwise,
    RotateCounterClockwise,
    MoveLeft,
    MoveRight,
    Fall,
}

/// Whether `command` keeps the piece's position within `i16`.
pub open spec fn command_in_range(state: PieceState, command: PieceCommand) -> bool {
    match command {
        PieceCommand::MoveLeft => state.x > i16::MIN,
        PieceCommand::MoveRight => state.x < i16::MAX,
        PieceCommand::Fall => state.y < i16::MAX,
        _ => true,
    }
}

/// The piece after `command`.
pub open spec fn command_result(state: PieceState, command: PieceCommand) -> PieceState {
    match command {
        PieceCommand::RotateClockwise => PieceState { rotation: clockwise(state.rotation), ..state },
        PieceCommand::RotateCounterClockwise => PieceState {
            rotation: counter_clockwise(state.rotation),
            ..state
        },
        PieceCommand::MoveLeft => PieceState { x: (state.x - 1) as i16, ..state },
        PieceCommand::MoveRight => PieceState { x: (state.x + 1) as i16, ..state },
        PieceCommand::Fall => PieceState { y: (state.y + 1) as i16, ..state },
    }
}

/// Applies one command: a rotation turns the piece a quarter, a move shifts it
/// one block left or right, a fall moves it one block down.
pub fn apply_command(state: PieceState, command: PieceCommand) -> (r: PieceState)
    requires
        command_in_range(state, command),
    ensures
        r == command_result(state, command),
{
    match command {
        PieceCommand::RotateClockwise => PieceState {
            rotation: rotate_clockwise(state.rotation),
            ..state
        },
        PieceCommand::RotateCounterClockwise => PieceState {
            rotation: rotate_counter_clockwise(state.rotation),
            ..state
        },
        PieceCommand::MoveLeft => PieceState { x: state.x - 1, ..state },
        PieceCommand::MoveRight => PieceState { x: state.x + 1, ..state },
        PieceCommand::Fall => PieceState { y: state.y + 1, ..state },
    }
}

/// Whether the frame of the piece lies within `i16` block coordinates.
pub open spec fn frame_in_range(state: PieceState) -> bool {
    state.x <= i16::MAX - 3 && state.y <= i16::MAX - 3
}

/// The board cells that the piece covers, in row-major order of its frame.
pub fn piece_blocks(state: PieceState) -> (blocks: Vec<TetrisBlockCoords>)
    requires
        frame_in_range(state),
    ensures
        forall|i: int|
            0 <= i < blocks@.len() ==> {
                let b = #[trigger] blocks@[i];
                0 <= b.0 - state.x < 4 && 0 <= b.1 - state.y < 4 && occupied(
                    occupancy(state.tetromino, state.rotation),
                    (b.1 - state.y) as u16,
                    (b.0 - state.x) as u16,
                )
            },
        forall|i: int, j: int|
            0 <= i < j < blocks@.len() ==> (#[trigger] blocks@[i]).1 * 4 + blocks@[i].0 < (
            #[trigger] blocks@[j]).1 * 4 + blocks@[j].0,
        forall|row: u16, col: u16|
            row < 4 && col < 4 && #[trigger] occupied(
                occupancy(state.tetromino, state.rotation),
                row,
                col,
            ) ==> blocks@.contains(TetrisBlockCoords((state.x + col) as i16, (state.y + row) as i16)),
{
    let mask = tetromino_bitmask(state.tetromino, state.rotation);
    let cells = occupied_cells(mask);
    let mut blocks: Vec<TetrisBlockCoords> = Vec::new();
    let mut k: usize = 0;
    while k < cells.len()
        invariant
            k <= cells@.len(),
            blocks@.len() == k,
            frame_in_range(state),
            forall|i: int|
                0 <= i < cells@.len() ==> #[trigger] cells@[i].0 < 4 && cells@[i].1 < 4,
            forall|i: int|
                0 <= i < k ==> #[trigger] blocks@[i] == TetrisBlockCoords(
                    (state.x + cells@[i].1) as i16,
                    (state.y + cells@[i].0) as i16,
                ),
        decreases cells@.len() - k,
    {
        let (row, col) = cells[k];
        blocks.push(TetrisBlockCoords(state.x + col as i16, state.y + row as i16));
        k = k + 1;
    }
    proof {
        assert forall|row: u16, col: u16|
            row < 4 && col < 4 && #[trigger] occupied(mask, row, col) implies blocks@.contains(
            TetrisBlockCoords((state.x + col) as i16, (state.y + row) as i16),
        ) by {
            let i = choose|i: int| 0 <= i < cells@.len() && cells@[i] == (row, col);
            assert(blocks@[i] == TetrisBlockCoords((state.x + col) as i16, (state.y + row) as i16));
        }
        assert forall|i: int, j: int| 0 <= i < j < blocks@.len() implies (
        #[trigger] blocks@[i]).1 * 4 + blocks@[i].0 < (#[trigger] blocks@[j]).1 * 4
            + blocks@[j].0 by {
            assert(crate::tetromino::cell_index(cells@[i]) < crate::tetromino::cell_index(
                cells@[j],
            ));
        }
    }
    blocks
}

} // verus!
