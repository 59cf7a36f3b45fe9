use ruzzle::board::{check_if_free, PLAYFIELD_COLS, PLAYFIELD_SIZE};
use ruzzle::game::{ActivePiece, Game};
use ruzzle::input::Command;
use ruzzle::render::{
    Prim, INVISIBLE, OPAQUE_BLACK, OUTLINE_WIDTH_MILLI, PIECE_PRIMS_START, PRIM_BUFFER_LEN,
};
use ruzzle::tetrominos::{color_of, shape_of, TI, TL};

const SCALE: u32 = 800;

fn piece(kind: usize, x: i32, y: i32, rot: u8) -> ActivePiece {
    ActivePiece { kind, pos: [x, y], rot, active: true, matrix: shape_of(kind).rotated(rot) }
}

#[test]
fn new_game_layout() {
    let g = Game::new(SCALE);
    assert_eq!(g.primitives.len(), PRIM_BUFFER_LEN);
    assert!(!g.piece.active);
    assert!(g.playfield.iter().all(|&c| c == 0));
    let p = g.primitives[13];
    assert_eq!((p.translate_x, p.translate_y), (24, 8));
    assert_eq!(p.z_index, 14);
    assert_eq!(p.width_milli, OUTLINE_WIDTH_MILLI);
    assert_eq!(p.scale_milli, SCALE);
    assert_eq!(g.primitives[PRIM_BUFFER_LEN - 1], Prim::new_with_scale(SCALE));
}

#[test]
fn first_tick_spawns_at_origin() {
    let mut g = Game::new(SCALE);
    g.tick_with(6, 10, 2000);
    assert_eq!(g.piece, piece(6, 0, 0, 0));
}

#[test]
fn random_spawn_is_a_real_kind() {
    for _ in 0..50 {
        let mut g = Game::new(SCALE);
        g.tick(0, 2000);
        assert!(g.piece.active);
        assert!(TI <= g.piece.kind && g.piece.kind <= TL);
        assert_eq!(g.piece.pos, [0, 0]);
        assert_eq!(g.piece.matrix, shape_of(g.piece.kind));
    }
}

#[test]
fn end_to_end_color_and_rotation() {
    let mut g = Game::new(SCALE);
    g.set_cell(0, 1);
    g.tick_with(3, 0, 2000);
    assert_eq!(g.primitives[0].color, color_of(1));
    g.set_cell(0, 0);
    g.piece = piece(3, 3, 2, 0);
    g.request_rotate(true);
    assert_eq!(g.target_tet_rot, 1);
    assert!(check_if_free([3, 2], &shape_of(3).rotated(1), &g.playfield));
    g.tick_with(3, 1, 2000);
    assert_eq!(g.piece.rot, 1);
    assert_eq!(g.piece.matrix, shape_of(3).rotated(1));
    assert_eq!(g.piece.pos, [3, 2]);
}

#[test]
fn counter_clockwise_request_wraps() {
    let mut g = Game::new(SCALE);
    g.tick_with(3, 0, 2000);
    g.request_rotate(false);
    assert_eq!(g.target_tet_rot, 3);
    g.piece = piece(3, 3, 2, 3);
    g.request_rotate(true);
    assert_eq!(g.target_tet_rot, 0);
}

#[test]
fn rejected_rotation_keeps_piece() {
    let mut g = Game::new(SCALE);
    // an I piece lying along the bottom rows cannot stand up
    g.tick_with(1, 0, 1_000_000);
    g.piece = piece(1, 0, 13, 0);
    let before = g.piece;
    g.request_rotate(true);
    g.tick_with(1, 1, 1_000_000);
    assert_eq!(g.piece, before);
    assert_eq!(g.target_tet_rot, 0);
}

#[test]
fn rejected_move_keeps_piece() {
    let mut g = Game::new(SCALE);
    g.tick_with(7, 0, 1_000_000);
    // L fills column 0 of its box, so it cannot go left from the edge
    let before = g.piece;
    g.request_move(-1, 0);
    g.tick_with(7, 1, 1_000_000);
    assert_eq!(g.piece, before);
    assert_eq!((g.target_piece_x, g.target_piece_y), (0, 0));
    // blocked by an occupied cell to the right
    g.set_cell(2 * PLAYFIELD_COLS + 2, 4);
    g.request_move(1, 0);
    g.tick_with(7, 2, 1_000_000);
    assert_eq!(g.piece, before);
    // a legal move is made
    g.request_move(0, 1);
    g.tick_with(7, 3, 1_000_000);
    assert_eq!(g.piece.pos, [0, 1]);
}

#[test]
fn board_records_follow_board_after_tick() {
    let mut g = Game::new(SCALE);
    g.load_showcase();
    g.tick_with(2, 500, 2000);
    for i in 0..PLAYFIELD_SIZE {
        let cell = g.playfield[i];
        let p = g.primitives[i];
        assert_eq!(p.color, color_of(cell));
        assert_eq!(p.shimmer, cell == 0);
        assert_eq!(p.color_stroke, OPAQUE_BLACK);
    }
}

#[test]
fn showcase_layout_rows() {
    let mut g = Game::new(SCALE);
    g.load_showcase();
    // band 0: left half empty kind, right half kind 4 (S) mirrored
    let row = |g: &Game, r: usize| -> Vec<usize> {
        (0..PLAYFIELD_COLS).map(|c| g.playfield[r * PLAYFIELD_COLS + c]).collect()
    };
    assert_eq!(row(&g, 0), vec![0; 10]);
    assert_eq!(row(&g, 1), vec![0, 0, 0, 0, 0, 0, 0, 4, 4, 0]);
    assert_eq!(row(&g, 2), vec![0, 0, 0, 0, 0, 0, 0, 0, 4, 4]);
    // band 1: I on the left, Z on the right
    assert_eq!(row(&g, 5), vec![1, 1, 1, 1, 0, 0, 0, 0, 5, 5]);
    assert_eq!(row(&g, 6), vec![0, 0, 0, 0, 0, 0, 0, 5, 5, 0]);
    // band 3: T on the left, L on the right
    assert_eq!(row(&g, 12), vec![0, 0, 0, 0, 0, 0, 0, 0, 0, 7]);
    assert_eq!(row(&g, 14), vec![3, 3, 3, 0, 0, 0, 0, 0, 7, 7]);
}

#[test]
fn piece_records_follow_piece() {
    let mut g = Game::new(SCALE);
    g.tick_with(3, 0, 1_000_000);
    g.request_move(1, 0);
    g.tick_with(3, 1, 1_000_000);
    assert_eq!(g.piece.pos, [1, 0]);
    for j in 0..16usize {
        let p = g.primitives[PIECE_PRIMS_START + j];
        let (c, r) = (j % 4, j / 4);
        assert_eq!(p.translate_x, (1 + c as i64) * 8);
        assert_eq!(p.translate_y, r as i64 * 8);
        if g.piece.matrix.is_solid(c, r) {
            assert_eq!(p.color, color_of(3));
            assert_eq!(p.color_stroke, color_of(3));
            assert_eq!(p.width_milli, OUTLINE_WIDTH_MILLI);
            assert_eq!(p.z_index, PLAYFIELD_SIZE as i32);
        } else {
            assert_eq!(p.color, INVISIBLE);
            assert_eq!(p.color_stroke, INVISIBLE);
        }
    }
    // records past the piece's box are left alone
    assert_eq!(g.primitives[PRIM_BUFFER_LEN - 1], Prim::new_with_scale(SCALE));
}

#[test]
fn gravity_pulls_once_per_interval() {
    let mut g = Game::new(SCALE);
    g.tick_with(1, 0, 2000);
    let mut drops = Vec::new();
    let mut y = g.piece.pos[1];
    let mut t: u64 = 0;
    while t < 10_000 {
        t += 100;
        g.tick_with(1, t, 2000);
        if g.piece.pos[1] != y {
            assert_eq!(g.piece.pos[1], y + 1);
            y = g.piece.pos[1];
            drops.push(t);
        }
    }
    assert_eq!(drops, vec![2100, 4200, 6300, 8400]);
    assert_eq!(g.last_down_ms, 8400);
}

#[test]
fn gravity_waits_strictly_longer_than_interval() {
    let mut g = Game::new(SCALE);
    g.tick_with(1, 0, 2000);
    g.tick_with(1, 2000, 2000);
    assert_eq!(g.piece.pos, [0, 0]);
    g.tick_with(1, 2001, 2000);
    assert_eq!(g.piece.pos, [0, 1]);
    assert_eq!(g.last_down_ms, 2001);
}

#[test]
fn reset_then_tick_spawns_new_piece() {
    let mut g = Game::new(SCALE);
    g.tick_with(3, 0, 1_000_000);
    g.request_move(0, 1);
    g.tick_with(3, 1, 1_000_000);
    assert_eq!(g.piece.pos, [0, 1]);
    g.apply_command(Command::NewPiece);
    assert!(!g.piece.active);
    g.tick_with(5, 2, 1_000_000);
    assert_eq!(g.piece, piece(5, 0, 0, 0));
}

#[test]
fn commands_set_requests() {
    let mut g = Game::new(SCALE);
    g.tick_with(3, 0, 1_000_000);
    g.apply_command(Command::MoveLeft);
    g.apply_command(Command::MoveDown);
    assert_eq!((g.target_piece_x, g.target_piece_y), (-1, 1));
    g.apply_command(Command::MoveRight);
    g.apply_command(Command::MoveUp);
    assert_eq!((g.target_piece_x, g.target_piece_y), (1, -1));
    g.apply_command(Command::RotateCounterClockwise);
    assert_eq!(g.target_tet_rot, 3);
    g.apply_command(Command::RotateClockwise);
    assert_eq!(g.target_tet_rot, 1);
    let before = g.piece;
    g.apply_command(Command::ZoomIn);
    g.apply_command(Command::Quit);
    assert_eq!(g.piece, before);
    assert_eq!((g.target_piece_x, g.target_piece_y, g.target_tet_rot), (1, -1, 1));
}

#[test]
fn random_spawns_vary() {
    let mut seen = [false; 8];
    for _ in 0..300 {
        let mut g = Game::new(SCALE);
        g.tick(0, 2000);
        seen[g.piece.kind] = true;
    }
    assert!(!seen[0]);
    assert!(seen.iter().filter(|&&s| s).count() >= 2);
}
