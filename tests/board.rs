use ruzzle::board::{check_if_free, Playfield, PLAYFIELD_COLS, PLAYFIELD_ROWS, PLAYFIELD_SIZE};
use ruzzle::tetrominos::{shape_of, TetroShape, KIND_COUNT, TI, TL};

fn oracle(pos: [i32; 2], shape: &TetroShape, board: &Playfield) -> bool {
    for r in 0..4usize {
        for c in 0..4usize {
            if shape.is_solid(c, r) {
                let x = pos[0] as i64 + c as i64;
                let y = pos[1] as i64 + r as i64;
                if x < 0 || y < 0 || x >= PLAYFIELD_COLS as i64 || y >= PLAYFIELD_ROWS as i64 {
                    return false;
                }
                if board[(y as usize) * PLAYFIELD_COLS + x as usize] != 0 {
                    return false;
                }
            }
        }
    }
    true
}

#[test]
fn spawn_position_fits_on_empty_board() {
    let board: Playfield = [0; PLAYFIELD_SIZE];
    for kind in TI..=TL {
        assert!(check_if_free([0, 0], &shape_of(kind), &board));
    }
}

#[test]
fn overlap_with_occupied_cell_is_refused() {
    let mut board: Playfield = [0; PLAYFIELD_SIZE];
    // T at (3, 2): filled cells (4, 3), (3, 4), (4, 4), (5, 4)
    board[3 * PLAYFIELD_COLS + 4] = 2;
    assert!(!check_if_free([3, 2], &shape_of(3), &board));
    // the empty top-left cell of the box may overlap
    board[3 * PLAYFIELD_COLS + 4] = 0;
    board[2 * PLAYFIELD_COLS + 3] = 2;
    assert!(check_if_free([3, 2], &shape_of(3), &board));
}

#[test]
fn out_of_bounds_is_refused() {
    let board: Playfield = [0; PLAYFIELD_SIZE];
    let t = shape_of(3);
    assert!(!check_if_free([-1, 0], &t, &board));
    assert!(check_if_free([7, 13], &t, &board));
    assert!(!check_if_free([8, 13], &t, &board));
    assert!(!check_if_free([7, 14], &t, &board));
    // empty first row of the box may hang over the top
    assert!(check_if_free([0, -1], &t, &board));
    assert!(!check_if_free([0, -3], &t, &board));
    assert!(!check_if_free([i32::MAX, i32::MAX], &t, &board));
    assert!(!check_if_free([i32::MIN, i32::MIN], &t, &board));
}

#[test]
fn empty_shape_fits_anywhere() {
    let board: Playfield = [1; PLAYFIELD_SIZE];
    assert!(check_if_free([-100, 100], &shape_of(0), &board));
}

#[test]
fn legality_matches_cell_by_cell_reading_on_random_boards() {
    let mut seed: u64 = 0x2545F4914F6CDD1D;
    let mut next = move || {
        seed ^= seed << 13;
        seed ^= seed >> 7;
        seed ^= seed << 17;
        seed
    };
    for _ in 0..300 {
        let mut board: Playfield = [0; PLAYFIELD_SIZE];
        let density = next() % 5;
        for cell in board.iter_mut() {
            if next() % 5 < density {
                *cell = (next() % (KIND_COUNT as u64 - 1) + 1) as usize;
            }
        }
        let kind = (next() % KIND_COUNT as u64) as usize;
        let shape = shape_of(kind).rotated((next() % 4) as u8);
        for _ in 0..20 {
            let pos = [(next() % 16) as i32 - 4, (next() % 22) as i32 - 4];
            assert_eq!(check_if_free(pos, &shape, &board), oracle(pos, &shape, &board));
        }
    }
}
