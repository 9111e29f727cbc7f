use term_tetris::coord_space::{
    block_to_octad, block_to_twoxel, block_twoxels, on_frame_border, twoxel_to_octad,
    OctadCoords, TetrisBlockCoords, TwoxelCoords,
};
use term_tetris::piece::{apply_command, piece_blocks, PieceCommand, PieceState};
use term_tetris::tetromino::{Rotation, Tetromino};

#[test]
fn conversions_exact_values() {
    assert_eq!(twoxel_to_octad(TwoxelCoords(3, -5)), (6, -10));
    assert_eq!(block_to_twoxel(TetrisBlockCoords(4, 7)), (8, 14));
    assert_eq!(block_to_octad(TetrisBlockCoords(-2, 3)), (-8, 12));
    assert_eq!(block_to_octad(TetrisBlockCoords(i16::MAX, i16::MIN)), (131068, -131072));
}

#[test]
fn conversions_linear() {
    for (x, y) in [(0i16, 0i16), (5, -3), (-100, 250)] {
        let a = block_to_octad(TetrisBlockCoords(x, y));
        let b = block_to_octad(TetrisBlockCoords(x + 1, y));
        assert_eq!(b, (a.0 + 4, a.1));
        let t = twoxel_to_octad(TwoxelCoords(x, y));
        let u = twoxel_to_octad(TwoxelCoords(x, y + 1));
        assert_eq!(u, (t.0, t.1 + 2));
        let v = block_to_twoxel(TetrisBlockCoords(x, y));
        let w = twoxel_to_octad(TwoxelCoords(v.0 as i16, v.1 as i16));
        assert_eq!(w, a);
    }
}

#[test]
fn block_twoxel_quad() {
    assert_eq!(
        block_twoxels(TetrisBlockCoords(3, 1)),
        [(6, 2), (7, 2), (6, 3), (7, 3)]
    );
}

#[test]
fn frame_border() {
    assert!(on_frame_border(0, 0, 45, 81));
    assert!(on_frame_border(45, 10, 45, 81));
    assert!(on_frame_border(10, 81, 45, 81));
    assert!(!on_frame_border(10, 10, 45, 81));
    assert!(!on_frame_border(-1, 0, 45, 81));
    assert!(!on_frame_border(46, 0, 45, 81));
    assert_eq!(OctadCoords(1, 2), OctadCoords(1, 2));
}

#[test]
fn commands_change_piece() {
    let s = PieceState { tetromino: Tetromino::T, rotation: Rotation::North, x: 4, y: 4 };
    assert_eq!(apply_command(s, PieceCommand::RotateClockwise).rotation, Rotation::East);
    assert_eq!(apply_command(s, PieceCommand::RotateCounterClockwise).rotation, Rotation::West);
    assert_eq!(apply_command(s, PieceCommand::MoveLeft).x, 3);
    assert_eq!(apply_command(s, PieceCommand::MoveRight).x, 5);
    let f = apply_command(s, PieceCommand::Fall);
    assert_eq!((f.x, f.y, f.rotation), (4, 5, Rotation::North));
}

#[test]
fn t_piece_blocks_on_board() {
    let s = PieceState { tetromino: Tetromino::T, rotation: Rotation::North, x: 4, y: 4 };
    let blocks = piece_blocks(s);
    assert_eq!(
        blocks,
        vec![
            TetrisBlockCoords(5, 4),
            TetrisBlockCoords(4, 5),
            TetrisBlockCoords(5, 5),
            TetrisBlockCoords(6, 5),
        ]
    );
}
