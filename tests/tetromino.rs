use term_tetris::tetromino::{
    build_tetromino_bitmasks, normalize_mask, occupied_cells, rotate_clockwise,
    rotate_counter_clockwise, tetromino_bitmask, Rotation, Tetromino,
};

const ALL_PIECES: [Tetromino; 7] = [
    Tetromino::I,
    Tetromino::O,
    Tetromino::T,
    Tetromino::J,
    Tetromino::L,
    Tetromino::S,
    Tetromino::Z,
];

const ALL_ROTATIONS: [Rotation; 4] = [
    Rotation::North,
    Rotation::East,
    Rotation::South,
    Rotation::West,
];

fn glyph_table(piece: Tetromino) -> [u16; 4] {
    match piece {
        Tetromino::I => build_tetromino_bitmasks(
            ["----", "xxxx", "----", "----"],
            ["--x-", "--x-", "--x-", "--x-"],
            ["----", "----", "xxxx", "----"],
            ["-x--", "-x--", "-x--", "-x--"],
        ),
        Tetromino::J => build_tetromino_bitmasks(
            ["x---", "xxx-", "----", "----"],
            ["-xx-", "-x--", "-x--", "----"],
            ["----", "xxx-", "--x-", "----"],
            ["-x--", "-x--", "xx--", "----"],
        ),
        Tetromino::L => build_tetromino_bitmasks(
            ["--x-", "xxx-", "----", "----"],
            ["-x--", "-x--", "-xx-", "----"],
            ["----", "xxx-", "x---", "----"],
            ["xx--", "-x--", "-x--", "----"],
        ),
        Tetromino::O => build_tetromino_bitmasks(
            ["-xx-", "-xx-", "----", "----"],
            ["-xx-", "-xx-", "----", "----"],
            ["-xx-", "-xx-", "----", "----"],
            ["-xx-", "-xx-", "----", "----"],
        ),
        Tetromino::S => build_tetromino_bitmasks(
            ["-xx-", "xx--", "----", "----"],
            ["-x--", "-xx-", "--x-", "----"],
            ["----", "-xx-", "xx--", "----"],
            ["x---", "xx--", "-x--", "----"],
        ),
        Tetromino::T => build_tetromino_bitmasks(
            ["-x--", "xxx-", "----", "----"],
            ["-x--", "-xx-", "-x--", "----"],
            ["----", "xxx-", "-x---", "----"],
            ["-x--", "xx--", "-x--", "----"],
        ),
        Tetromino::Z => build_tetromino_bitmasks(
            ["xx--", "-xx-", "----", "----"],
            ["--x-", "-xx-", "-x--", "----"],
            ["----", "xx--", "-xx-", "----"],
            ["-x--", "xx--", "x---", "----"],
        ),
    }
}

#[test]
fn shape_table_matches_glyph_grids() {
    for piece in ALL_PIECES {
        let built = glyph_table(piece);
        for (k, rotation) in ALL_ROTATIONS.into_iter().enumerate() {
            assert_eq!(tetromino_bitmask(piece, rotation), built[k], "{:?} {:?}", piece, rotation);
        }
    }
}

#[test]
fn every_mask_has_four_cells() {
    for piece in ALL_PIECES {
        for rotation in ALL_ROTATIONS {
            assert_eq!(tetromino_bitmask(piece, rotation).count_ones(), 4);
        }
    }
}

#[test]
fn o_piece_same_in_every_rotation() {
    for rotation in ALL_ROTATIONS {
        assert_eq!(
            tetromino_bitmask(Tetromino::O, rotation),
            tetromino_bitmask(Tetromino::O, Rotation::North)
        );
    }
}

#[test]
fn t_piece_north_cells() {
    let mask = tetromino_bitmask(Tetromino::T, Rotation::North);
    assert_eq!(mask, 0b0100_1110_0000_0000);
    assert_eq!(occupied_cells(mask), vec![(0, 1), (1, 0), (1, 1), (1, 2)]);
}

#[test]
fn glyph_builder_reads_only_lowercase_x() {
    let masks = build_tetromino_bitmasks(
        ["x---", "----", "----", "---x"],
        ["X---", "----", "----", "----"],
        ["----", "----", "----", "----"],
        ["xxxx", "xxxx", "xxxx", "xxxx"],
    );
    assert_eq!(masks, [0x8001, 0, 0, 0xFFFF]);
}

#[test]
fn clockwise_cycle() {
    assert_eq!(rotate_clockwise(Rotation::North), Rotation::East);
    assert_eq!(rotate_clockwise(Rotation::East), Rotation::South);
    assert_eq!(rotate_clockwise(Rotation::South), Rotation::West);
    assert_eq!(rotate_clockwise(Rotation::West), Rotation::North);
}

#[test]
fn counter_clockwise_cycle() {
    assert_eq!(rotate_counter_clockwise(Rotation::North), Rotation::West);
    assert_eq!(rotate_counter_clockwise(Rotation::West), Rotation::South);
    assert_eq!(rotate_counter_clockwise(Rotation::South), Rotation::East);
    assert_eq!(rotate_counter_clockwise(Rotation::East), Rotation::North);
}

#[test]
fn four_clockwise_steps_return() {
    for rotation in ALL_ROTATIONS {
        let mut r = rotation;
        for _ in 0..4 {
            r = rotate_clockwise(r);
        }
        assert_eq!(r, rotation);
    }
}

#[test]
fn rotations_undo_each_other() {
    for rotation in ALL_ROTATIONS {
        assert_eq!(rotate_counter_clockwise(rotate_clockwise(rotation)), rotation);
        assert_eq!(rotate_clockwise(rotate_counter_clockwise(rotation)), rotation);
    }
}

#[test]
fn normalize_moves_to_top_left() {
    // ----      xx--
    // ----      -xx-
    // -xx-  ->  ----
    // --xx      ----
    assert_eq!(normalize_mask(0x0063), 0xC600);
    assert_eq!(normalize_mask(0x2222), 0x8888);
    assert_eq!(normalize_mask(0x00F0), 0xF000);
    assert_eq!(normalize_mask(0x0001), 0x8000);
}

#[test]
fn normalize_keeps_normalized_masks() {
    for piece in ALL_PIECES {
        for rotation in ALL_ROTATIONS {
            let m = normalize_mask(tetromino_bitmask(piece, rotation));
            assert_eq!(normalize_mask(m), m);
            assert_ne!(m & 0xF000, 0);
            assert_ne!(m & 0x8888, 0);
        }
    }
}

#[test]
fn normalize_empty_mask() {
    assert_eq!(normalize_mask(0), 0);
}

#[test]
fn occupied_cells_full_and_empty() {
    assert_eq!(occupied_cells(0), vec![]);
    let all = occupied_cells(0xFFFF);
    assert_eq!(all.len(), 16);
    assert_eq!(all[0], (0, 0));
    assert_eq!(all[5], (1, 1));
    assert_eq!(all[15], (3, 3));
}
