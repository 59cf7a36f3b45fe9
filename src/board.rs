use vstd::prelude::*;

use crate::tetrominos::{grid_solid, shape_grid, TetroShape, Tetromino, KIND_COUNT};

verus! {

/// Width of the board in cells.
pub const PLAYFIELD_COLS: usize = 10;

/// Height of the board in cells.
pub const PLAYFIELD_ROWS: usize = 16;

/// Number of board cells.
pub const PLAYFIELD_SIZE: usize = PLAYFIELD_COLS * PLAYFIELD_ROWS;

/// The board, row by row: cell (`x`, `y`) is at `y * PLAYFIELD_COLS + x` and holds the
/// kind that occupies it, 0 where it is empty.
pub type Playfield = [usize; PLAYFIELD_SIZE];

/// Index of board cell (`x`, `y`).
pub open spec fn cell_index(x: int, y: int) -> int {
    y * PLAYFIELD_COLS + x
}

/// Cell (`x`, `y`) lies on the board.
pub open spec fn in_bounds(x: int, y: int) -> bool {
    0 <= x < PLAYFIELD_COLS && 0 <= y < PLAYFIELD_ROWS
}

/// Cell (`x`, `y`) lies on the board and holds no piece.
pub open spec fn cell_free(board: Seq<usize>, x: int, y: int) -> bool {
    in_bounds(x, y) && board[cell_index(x, y)] == 0
}

/// A shape whose top-left corner stands at (`x`, `y`) fits: every filled cell of the
/// shape lands on an empty cell of the board.
pub open spec fn placement_legal(x: int, y: int, g: Seq<Seq<bool>>, board: Seq<usize>) -> bool {
    forall|c: int, r: int| #[trigger] grid_solid(g, c, r) ==> cell_free(board, x + c, y + r)
}

/// Every filled cell of shape `g`, with its box's top-left corner at (`x`, `y`), lies on
/// the board.
pub open spec fn placement_in_bounds(x: int, y: int, g: Seq<Seq<bool>>) -> bool {
    forall|c: int, r: int| #[trigger] grid_solid(g, c, r) ==> in_bounds(x + c, y + r)
}

/// A board with no piece on it.
pub open spec fn board_empty(board: Seq<usize>) -> bool {
    forall|i: int| 0 <= i < board.len() ==> board[i] == 0
}

/// Whether `tetro_shape` may stand with its top-left corner at `pos` (column, row):
/// false as soon as one filled cell of it falls outside the board or on an occupied cell.
pub fn check_if_free(pos: [i32; 2], tetro_shape: &TetroShape, blocks: &Playfield) -> (r: bool)
    ensures
        r == placement_legal(pos[0] as int, pos[1] as int, tetro_shape@, blocks@),
{
    let ghost g = tetro_shape@;
    let ghost x = pos[0] as int;
    let ghost y = pos[1] as int;
    assert(g.len() <= 4 && forall|i: int| 0 <= i < g.len() ==> #[trigger] g[i].len() <= 4);
    let mut r: usize = 0;
    while r < 4
        invariant
            r <= 4,
            g == tetro_shape@,
            x == pos[0] as int,
            y == pos[1] as int,
            blocks@.len() == PLAYFIELD_SIZE,
            forall|cc: int, rr: int|
                0 <= rr < r && #[trigger] grid_solid(g, cc, rr) ==> cell_free(blocks@, x + cc, y + rr),
        decreases 4 - r,
    {
        let offset_row: i64 = r as i64 + pos[1] as i64;
        let mut c: usize = 0;
        while c < 4
            invariant
                r < 4,
                c <= 4,
                g == tetro_shape@,
                x == pos[0] as int,
                y == pos[1] as int,
                offset_row == y + r,
                blocks@.len() == PLAYFIELD_SIZE,
                forall|cc: int, rr: int|
                    0 <= rr < r && #[trigger] grid_solid(g, cc, rr) ==> cell_free(blocks@, x + cc, y + rr),
                forall|cc: int| 0 <= cc < c && #[trigger] grid_solid(g, cc, r as int) ==> cell_free(blocks@, x + cc, y + r),
            decreases 4 - c,
        {
            let offset_col: i64 = c as i64 + pos[0] as i64;
            if tetro_shape.is_solid(c, r) {
                if offset_row < 0 || offset_row >= PLAYFIELD_ROWS as i64 || offset_col < 0
                    || offset_col >= PLAYFIELD_COLS as i64 {
                    assert(grid_solid(g, c as int, r as int));
                    return false;
                }
                let idx = (offset_row * PLAYFIELD_COLS as i64 + offset_col) as usize;
                if blocks[idx] != 0 {
                    assert(grid_solid(g, c as int, r as int));
                    return false;
                }
            }
            c += 1;
        }
        r += 1;
    }
    assert forall|cc: int, rr: int| #[trigger] grid_solid(g, cc, rr) implies cell_free(blocks@, x + cc, y + rr) by {
        assert(0 <= rr < 4);
    }
    true
}

/// A piece of any kind, unturned, with its box at the top-left corner of an empty board,
/// fits: the position where pieces spawn is always legal on an empty board.
pub proof fn lemma_spawn_fits(kind: Tetromino, board: Seq<usize>)
    requires
        kind < KIND_COUNT,
        board.len() == PLAYFIELD_SIZE,
        board_empty(board),
    ensures
        placement_legal(0, 0, shape_grid(kind), board),
{
    let g = shape_grid(kind);
    assert forall|c: int, r: int| #[trigger] grid_solid(g, c, r) implies cell_free(board, 0 + c, 0 + r) by {
        assert(0 <= c < 4 && 0 <= r < 4);
        assert(0 <= cell_index(c, r) < PLAYFIELD_SIZE);
    }
}

} // verus!
