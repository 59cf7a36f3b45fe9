use vstd::prelude::*;

use crate::board::{
    check_if_free, in_bounds, placement_in_bounds, placement_legal, Playfield, PLAYFIELD_COLS,
    PLAYFIELD_ROWS, PLAYFIELD_SIZE,
};
use crate::input::Command;
use crate::render::{
    new_primitives, Prim, INVISIBLE, OPAQUE_BLACK, OUTLINE_WIDTH_MILLI, PIECE_PRIMS_LEN,
    PIECE_PRIMS_START, PRIM_BUFFER_LEN, TETRION_SIZE, blank_prim, board_slot_prim,
};
use crate::tetrominos::{
    color_of, grid_solid, kind_color, lemma_real_kind_has_cell, rotate_grid_by, shape_grid,
    shape_of, TetroShape, Tetromino, KIND_COUNT, TI, TL,
};

verus! {

/// The falling piece: its kind, the board cell of its box's top-left corner (column,
/// row), how many clockwise quarter turns it has made, whether it is in play, and its
/// current shape.
#[derive(Clone, Copy, Debug, PartialEq, Eq)]
pub struct ActivePiece {
    pub kind: Tetromino,
    pub pos: [i32; 2],
    pub rot: u8,
    pub active: bool,
    pub matrix: TetroShape,
}

/// What a piece is, as mathematics.
pub struct PieceModel {
    pub kind: int,
    pub x: int,
    pub y: int,
    pub rot: int,
    pub active: bool,
    pub shape: Seq<Seq<bool>>,
}

impl View for ActivePiece {
    type V = PieceModel;

    open spec fn view(&self) -> PieceModel {
        PieceModel {
            kind: self.kind as int,
            x: self.pos[0] as int,
            y: self.pos[1] as int,
            rot: self.rot as int,
            active: self.active,
            shape: self.matrix@,
        }
    }
}

/// The spawn step: a piece that is not in play is replaced by a fresh one of `kind`, at
/// the top-left corner of the board, unturned.
pub open spec fn spawn_step(p: PieceModel, kind: Tetromino) -> PieceModel {
    if p.active {
        p
    } else {
        PieceModel { kind: kind as int, x: 0, y: 0, rot: 0, active: true, shape: shape_grid(kind) }
    }
}

/// The rotation step: the piece takes rotation `target` if it differs from the current one
/// and the kind's shape turned that often fits where the piece stands; else nothing changes.
pub open spec fn rotate_step(p: PieceModel, target: int, board: Seq<usize>) -> PieceModel {
    let g = rotate_grid_by(shape_grid(p.kind as usize), target as nat);
    if p.rot != target && placement_legal(p.x, p.y, g, board) {
        PieceModel { rot: target, shape: g, ..p }
    } else {
        p
    }
}

/// The move step: the piece moves by (`dx`, `dy`) if that is a move at all and the shape
/// fits at the new place; else nothing changes.
pub open spec fn move_step(p: PieceModel, dx: int, dy: int, board: Seq<usize>) -> PieceModel {
    if (dx != 0 || dy != 0) && placement_legal(p.x + dx, p.y + dy, p.shape, board) {
        PieceModel { x: p.x + dx, y: p.y + dy, ..p }
    } else {
        p
    }
}

/// Gravity pulls the piece one row down once more than `interval_ms` has passed since it
/// last did.
pub open spec fn gravity_due(now_ms: u64, last_down_ms: u64, interval_ms: u64) -> bool {
    now_ms - last_down_ms > interval_ms
}

/// The record of a board cell holding `cell` after a frame: filled with the kind's color,
/// with a black outline; only empty cells shimmer.
pub open spec fn board_prim(p: Prim, cell: usize) -> Prim {
    Prim { color: kind_color(cell), color_stroke: OPAQUE_BLACK, shimmer: cell == 0, ..p }
}

/// The record of cell `j` (row `j / 4`, column `j % 4`) of the piece's box after a frame:
/// placed on its board cell; drawn in the kind's color, outlined and above the board where
/// the shape is filled, invisible elsewhere.
pub open spec fn piece_prim(p: Prim, piece: PieceModel, j: int) -> Prim {
    let c = j % 4;
    let r = j / 4;
    let placed = Prim {
        translate_x: ((piece.x + c) * TETRION_SIZE) as i64,
        translate_y: ((piece.y + r) * TETRION_SIZE) as i64,
        ..p
    };
    if grid_solid(piece.shape, c, r) {
        Prim {
            color: kind_color(piece.kind as usize),
            color_stroke: kind_color(piece.kind as usize),
            shimmer: false,
            width_milli: OUTLINE_WIDTH_MILLI,
            z_index: PLAYFIELD_SIZE as i32,
            ..placed
        }
    } else {
        Prim { color: INVISIBLE, color_stroke: INVISIBLE, ..placed }
    }
}

/// The opening board that shows every kind: the board is cut into bands of four rows;
/// band `b` shows kind `b` in its left half and kind `4 + b`, mirrored, in its right half.
pub open spec fn showcase_cell(idx: int) -> usize {
    let r = idx / PLAYFIELD_COLS as int;
    let c = idx % PLAYFIELD_COLS as int;
    let kind = if c < 5 { r / 4 } else { 4 + r / 4 };
    let ci = if c < 5 { c } else { PLAYFIELD_COLS - c - 1 };
    if grid_solid(shape_grid(kind as usize), ci, r % 4) {
        kind as usize
    } else {
        0
    }
}

/// A rotation that does not fit is forgotten: the frame keeps the piece's rotation and
/// shape, and the rotation asked for falls back to the current one.
pub proof fn lemma_rejected_rotation_changes_nothing(
    pre: Game,
    post: Game,
    kind: Tetromino,
    now_ms: u64,
    interval_ms: u64,
)
    requires
        pre.wf(),
        pre.piece.active,
        post.ticked(pre, kind, now_ms, interval_ms),
        !placement_legal(
            pre.piece.pos[0] as int,
            pre.piece.pos[1] as int,
            rotate_grid_by(shape_grid(pre.piece.kind), pre.target_tet_rot as nat),
            pre.playfield@,
        ),
    ensures
        post.piece.rot == pre.piece.rot,
        post.piece.matrix@ == pre.piece.matrix@,
        post.target_tet_rot == pre.piece.rot,
{
}

/// A move that does not fit is forgotten: when the rotation asked for is refused too (or
/// none is asked for), the frame leaves the piece exactly where and as it was.
pub proof fn lemma_rejected_move_changes_nothing(
    pre: Game,
    post: Game,
    kind: Tetromino,
    now_ms: u64,
    interval_ms: u64,
)
    requires
        pre.wf(),
        pre.piece.active,
        post.ticked(pre, kind, now_ms, interval_ms),
        pre.target_tet_rot == pre.piece.rot || !placement_legal(
            pre.piece.pos[0] as int,
            pre.piece.pos[1] as int,
            rotate_grid_by(shape_grid(pre.piece.kind), pre.target_tet_rot as nat),
            pre.playfield@,
        ),
        !placement_legal(
            pre.piece.pos[0] + pre.target_piece_x,
            pre.piece.pos[1] + if gravity_due(now_ms, pre.last_down_ms, interval_ms) {
                1
            } else {
                pre.target_piece_y as int
            },
            pre.piece.matrix@,
            pre.playfield@,
        ),
    ensures
        post.piece@ == pre.piece@,
        post.target_piece_x == 0,
        post.target_piece_y == 0,
{
}

/// Gravity keeps its period: after a frame at `t1` in which it pulled, the next frame, at
/// `t2`, pulls again exactly when more than `interval_ms` has passed since `t1`.
pub proof fn lemma_gravity_period(
    g0: Game,
    g1: Game,
    g2: Game,
    k1: Tetromino,
    k2: Tetromino,
    t1: u64,
    t2: u64,
    interval_ms: u64,
)
    requires
        g0.wf(),
        g1.ticked(g0, k1, t1, interval_ms),
        g2.ticked(g1, k2, t2, interval_ms),
        gravity_due(t1, g0.last_down_ms, interval_ms),
    ensures
        g1.last_down_ms == t1,
        gravity_due(t2, g1.last_down_ms, interval_ms) <==> t2 - t1 > interval_ms,
        g2.last_down_ms == if t2 - t1 > interval_ms { t2 } else { t1 },
{
}

/// A piece of a real kind whose shape lies on the board has its box's corner within
/// three cells of the board.
pub proof fn lemma_piece_on_board(p: ActivePiece)
    requires
        TI <= p.kind <= TL,
        p.matrix@ == rotate_grid_by(shape_grid(p.kind), p.rot as nat),
        placement_in_bounds(p.pos[0] as int, p.pos[1] as int, p.matrix@),
    ensures
        -3 <= p.pos[0] < PLAYFIELD_COLS,
        -3 <= p.pos[1] < PLAYFIELD_ROWS,
{
    lemma_real_kind_has_cell(p.kind, p.rot as nat);
    let (x, y) = choose|x: int, y: int|
        0 <= x < 4 && 0 <= y < 4 && #[trigger] grid_solid(p.matrix@, x, y);
    assert(in_bounds(p.pos[0] + x, p.pos[1] + y));
}

/// After a frame, every board record shows the color that the table gives to what its
/// cell holds, and a cell that holds a piece does not shimmer: its outline is plain black.
pub proof fn lemma_board_records_follow_board(
    pre: Game,
    post: Game,
    kind: Tetromino,
    now_ms: u64,
    interval_ms: u64,
)
    requires
        pre.wf(),
        post.ticked(pre, kind, now_ms, interval_ms),
    ensures
        forall|i: int|
            0 <= i < PLAYFIELD_SIZE ==> (#[trigger] post.primitives@[i]).color == kind_color(
                post.playfield@[i],
            ),
        forall|i: int|
            0 <= i < PLAYFIELD_SIZE && post.playfield@[i] != 0 ==> !(#[trigger] post.primitives@[i]).shimmer
                && post.primitives@[i].color_stroke == OPAQUE_BLACK,
{
    assert forall|i: int| 0 <= i < PLAYFIELD_SIZE implies (#[trigger] post.primitives@[i]).color
        == kind_color(post.playfield@[i]) by {
        assert(post.primitives@[i] == board_prim(pre.primitives@[i], pre.playfield@[i]));
    }
    assert forall|i: int| 0 <= i < PLAYFIELD_SIZE && post.playfield@[i] != 0 implies !(
    #[trigger] post.primitives@[i]).shimmer && post.primitives@[i].color_stroke == OPAQUE_BLACK by {
        assert(post.primitives@[i] == board_prim(pre.primitives@[i], pre.playfield@[i]));
    }
}

/// The game: the board, the falling piece, the moves asked for since the last frame, the
/// time of gravity's last pull, and the render records of the board and the piece.
pub struct Game {
    pub playfield: Playfield,
    pub piece: ActivePiece,
    pub target_piece_x: i8,
    pub target_piece_y: i8,
    pub target_tet_rot: u8,
    pub last_down_ms: u64,
    pub primitives: Vec<Prim>,
}

/// Relies on rand::thread_rng and rand::Rng::gen_range: a value drawn from `lo..hi`.
/// gen_range panics on an empty range, which `requires` excludes.
#[verifier::external_body]
fn random_in(lo: usize, hi: usize) -> (r: usize)
    requires
        lo < hi,
    ensures
        lo <= r < hi,
{
    rand::Rng::gen_range(&mut rand::thread_rng(), lo..hi)
}

impl Game {
    /// Board cells hold kinds, the buffer has its fixed length, rotations are quarter
    /// turns, a piece in play is of a real kind, and the piece's shape is always its
    /// kind's shape turned `rot` times, and a piece in play lies on the board.
    pub open spec fn wf(&self) -> bool {
        &&& forall|i: int| 0 <= i < PLAYFIELD_SIZE ==> #[trigger] self.playfield@[i] < KIND_COUNT
        &&& self.primitives@.len() == PRIM_BUFFER_LEN
        &&& self.piece.rot < 4
        &&& self.target_tet_rot < 4
        &&& self.piece.kind < KIND_COUNT
        &&& self.piece.active ==> TI <= self.piece.kind <= TL
        &&& self.piece.matrix@ == rotate_grid_by(shape_grid(self.piece.kind), self.piece.rot as nat)
        &&& self.piece.active ==> placement_in_bounds(
            self.piece.pos[0] as int,
            self.piece.pos[1] as int,
            self.piece.matrix@,
        )
    }

    /// What one frame makes of `pre`, a new piece being of kind `kind`: spawn, rotation,
    /// gravity, move, then the records of the board and of the piece.
    pub open spec fn ticked(self, pre: Game, kind: Tetromino, now_ms: u64, interval_ms: u64) -> bool {
        let board = pre.playfield@;
        let p0 = spawn_step(pre.piece@, kind);
        let p1 = rotate_step(p0, pre.target_tet_rot as int, board);
        let due = gravity_due(now_ms, pre.last_down_ms, interval_ms);
        let dy = if due { 1 } else { pre.target_piece_y as int };
        let p2 = move_step(p1, pre.target_piece_x as int, dy, board);
        &&& self.playfield@ == board
        &&& self.piece@ == p2
        &&& self.target_tet_rot as int == p1.rot
        &&& self.target_piece_x == 0
        &&& self.target_piece_y == 0
        &&& self.last_down_ms == if due { now_ms } else { pre.last_down_ms }
        &&& self.primitives@.len() == pre.primitives@.len()
        &&& forall|i: int|
            0 <= i < PLAYFIELD_SIZE ==> #[trigger] self.primitives@[i] == board_prim(
                pre.primitives@[i],
                board[i],
            )
        &&& forall|i: int|
            PIECE_PRIMS_START <= i < PIECE_PRIMS_START + PIECE_PRIMS_LEN
                ==> #[trigger] self.primitives@[i] == piece_prim(
                pre.primitives@[i],
                p2,
                i - PIECE_PRIMS_START,
            )
        &&& forall|i: int|
            PIECE_PRIMS_START + PIECE_PRIMS_LEN <= i < self.primitives@.len()
                ==> #[trigger] self.primitives@[i] == pre.primitives@[i]
    }

    /// An empty board, no piece in play, nothing asked for, and a fresh buffer of records
    /// drawn at scale `scale_milli` thousandths.
    pub fn new(scale_milli: u32) -> (g: Game)
        ensures
            g.wf(),
            forall|i: int| 0 <= i < PLAYFIELD_SIZE ==> #[trigger] g.playfield@[i] == 0,
            !g.piece.active,
            g.piece.kind == 0,
            g.piece.pos == [0i32, 0i32],
            g.piece.rot == 0,
            g.target_piece_x == 0,
            g.target_piece_y == 0,
            g.target_tet_rot == 0,
            g.last_down_ms == 0,
            forall|i: int| 0 <= i < PLAYFIELD_SIZE ==> #[trigger] g.primitives@[i] == board_slot_prim(i, scale_milli),
            forall|i: int| PLAYFIELD_SIZE <= i < PRIM_BUFFER_LEN ==> #[trigger] g.primitives@[i] == blank_prim(scale_milli),
    {
        let matrix = shape_of(0);
        assert(rotate_grid_by(shape_grid(0), 0) == shape_grid(0));
        Game {
            playfield: [0usize; PLAYFIELD_SIZE],
            piece: ActivePiece { kind: 0, pos: [0, 0], rot: 0, active: false, matrix },
            target_piece_x: 0,
            target_piece_y: 0,
            target_tet_rot: 0,
            last_down_ms: 0,
            primitives: new_primitives(scale_milli),
        }
    }

    /// One frame, a new piece being of kind `kind`: a piece is spawned if none is in
    /// play; the rotation asked for is taken if it fits, else forgotten; gravity asks
    /// for a row down once more than `interval_ms` has passed since its last pull (the
    /// clock `now_ms` counts milliseconds); the move asked for is made if it fits, and
    /// then forgotten; the board's records are recolored and the piece's redrawn.
    pub fn tick_with(&mut self, kind: Tetromino, now_ms: u64, interval_ms: u64)
        requires
            old(self).wf(),
            TI <= kind <= TL,
        ensures
            final(self).wf(),
            final(self).ticked(*old(self), kind, now_ms, interval_ms),
    {
        let ghost pre = *self;
        let ghost board = self.playfield@;
        if !self.piece.active {
            let matrix = shape_of(kind);
            assert(rotate_grid_by(shape_grid(kind), 0) == shape_grid(kind));
            self.piece = ActivePiece { kind, pos: [0, 0], rot: 0, active: true, matrix };
        }
        assert(self.piece@ == spawn_step(pre.piece@, kind));
        if self.piece.rot != self.target_tet_rot {
            let new_matrix = shape_of(self.piece.kind).rotated(self.target_tet_rot);
            if check_if_free(self.piece.pos, &new_matrix, &self.playfield) {
                self.piece.matrix = new_matrix;
                self.piece.rot = self.target_tet_rot;
            } else {
                self.target_tet_rot = self.piece.rot;
            }
        }
        let ghost p1 = rotate_step(spawn_step(pre.piece@, kind), pre.target_tet_rot as int, board);
        assert(self.piece@ == p1);
        self.paint_board();
        if now_ms > self.last_down_ms && now_ms - self.last_down_ms > interval_ms {
            self.last_down_ms = now_ms;
            self.target_piece_y = 1;
        }
        if self.target_piece_x != 0 || self.target_piece_y != 0 {
            proof {
                lemma_piece_on_board(self.piece);
            }
            let new_pos = [
                self.piece.pos[0] + self.target_piece_x as i32,
                self.piece.pos[1] + self.target_piece_y as i32,
            ];
            if check_if_free(new_pos, &self.piece.matrix, &self.playfield) {
                self.piece.pos = new_pos;
            }
            self.target_piece_x = 0;
            self.target_piece_y = 0;
        }
        self.paint_piece();
    }

    /// One frame, as `tick_with`, with the kind of a new piece drawn at random among the
    /// real kinds.
    pub fn tick(&mut self, now_ms: u64, interval_ms: u64)
        requires
            old(self).wf(),
        ensures
            final(self).wf(),
            exists|kind: Tetromino|
                TI <= kind <= TL && final(self).ticked(*old(self), kind, now_ms, interval_ms),
    {
        let kind = if self.piece.active {
            self.piece.kind
        } else {
            random_in(TI, TL + 1)
        };
        self.tick_with(kind, now_ms, interval_ms);
    }

    /// Asks for a quarter turn, clockwise or not, from the current rotation; the next
    /// frame makes it if it fits.
    pub fn request_rotate(&mut self, clockwise: bool)
        requires
            old(self).wf(),
        ensures
            final(self).wf(),
            final(self).target_tet_rot == if clockwise {
                (old(self).piece.rot + 1) % 4
            } else {
                (old(self).piece.rot + 3) % 4
            },
            final(self).playfield == old(self).playfield,
            final(self).piece == old(self).piece,
            final(self).target_piece_x == old(self).target_piece_x,
            final(self).target_piece_y == old(self).target_piece_y,
            final(self).last_down_ms == old(self).last_down_ms,
            final(self).primitives == old(self).primitives,
    {
        self.target_tet_rot = if clockwise {
            (self.piece.rot + 1) % 4
        } else {
            ((4 + self.piece.rot) - 1) % 4
        };
    }

    /// Asks for a move by (`dx`, `dy`) cells; the next frame makes it if it fits.
    pub fn request_move(&mut self, dx: i8, dy: i8)
        requires
            old(self).wf(),
        ensures
            final(self).wf(),
            final(self).target_piece_x == dx,
            final(self).target_piece_y == dy,
            final(self).playfield == old(self).playfield,
            final(self).piece == old(self).piece,
            final(self).target_tet_rot == old(self).target_tet_rot,
            final(self).last_down_ms == old(self).last_down_ms,
            final(self).primitives == old(self).primitives,
    {
        self.target_piece_x = dx;
        self.target_piece_y = dy;
    }

    /// Takes the piece out of play; the next frame spawns a new one.
    pub fn reset_piece(&mut self)
        requires
            old(self).wf(),
        ensures
            final(self).wf(),
            !final(self).piece.active,
            final(self).piece.kind == old(self).piece.kind,
            final(self).piece.pos == old(self).piece.pos,
            final(self).piece.rot == old(self).piece.rot,
            final(self).piece.matrix == old(self).piece.matrix,
            final(self).playfield == old(self).playfield,
            final(self).target_piece_x == old(self).target_piece_x,
            final(self).target_piece_y == old(self).target_piece_y,
            final(self).target_tet_rot == old(self).target_tet_rot,
            final(self).last_down_ms == old(self).last_down_ms,
            final(self).primitives == old(self).primitives,
    {
        self.piece.active = false;
    }

    /// Records what a piece command asks for: a move of one cell along one axis (the
    /// other axis keeps what was asked before), a quarter turn, or a new piece. Other
    /// commands concern the view, not the game, and change nothing here.
    pub fn apply_command(&mut self, command: Command)
        requires
            old(self).wf(),
        ensures
            final(self).wf(),
            final(self).target_piece_x == match command {
                Command::MoveLeft => -1,
                Command::MoveRight => 1,
                _ => old(self).target_piece_x as int,
            },
            final(self).target_piece_y == match command {
                Command::MoveUp => -1,
                Command::MoveDown => 1,
                _ => old(self).target_piece_y as int,
            },
            final(self).target_tet_rot == match command {
                Command::RotateClockwise => ((old(self).piece.rot + 1) % 4) as u8,
                Command::RotateCounterClockwise => ((old(self).piece.rot + 3) % 4) as u8,
                _ => old(self).target_tet_rot,
            },
            final(self).piece.active == (old(self).piece.active && command != Command::NewPiece),
            final(self).piece.kind == old(self).piece.kind,
            final(self).piece.pos == old(self).piece.pos,
            final(self).piece.rot == old(self).piece.rot,
            final(self).piece.matrix == old(self).piece.matrix,
            final(self).playfield == old(self).playfield,
            final(self).last_down_ms == old(self).last_down_ms,
            final(self).primitives == old(self).primitives,
    {
        match command {
            Command::MoveLeft => self.target_piece_x = -1,
            Command::MoveRight => self.target_piece_x = 1,
            Command::MoveUp => self.target_piece_y = -1,
            Command::MoveDown => self.target_piece_y = 1,
            Command::NewPiece => self.reset_piece(),
            Command::RotateClockwise => self.request_rotate(true),
            Command::RotateCounterClockwise => self.request_rotate(false),
            _ => {},
        }
    }

    /// Puts `kind` on board cell `idx` (0 empties it).
    pub fn set_cell(&mut self, idx: usize, kind: Tetromino)
        requires
            old(self).wf(),
            idx < PLAYFIELD_SIZE,
            kind < KIND_COUNT,
        ensures
            final(self).wf(),
            final(self).playfield@ == old(self).playfield@.update(idx as int, kind),
            final(self).piece == old(self).piece,
            final(self).target_piece_x == old(self).target_piece_x,
            final(self).target_piece_y == old(self).target_piece_y,
            final(self).target_tet_rot == old(self).target_tet_rot,
            final(self).last_down_ms == old(self).last_down_ms,
            final(self).primitives == old(self).primitives,
    {
        self.playfield[idx] = kind;
    }

    /// Fills the board with the opening layout that shows every kind.
    pub fn load_showcase(&mut self)
        requires
            old(self).wf(),
        ensures
            final(self).wf(),
            forall|i: int| 0 <= i < PLAYFIELD_SIZE ==> #[trigger] final(self).playfield@[i] == showcase_cell(i),
            final(self).piece == old(self).piece,
            final(self).target_piece_x == old(self).target_piece_x,
            final(self).target_piece_y == old(self).target_piece_y,
            final(self).target_tet_rot == old(self).target_tet_rot,
            final(self).last_down_ms == old(self).last_down_ms,
            final(self).primitives == old(self).primitives,
    {
        let mut index: usize = 0;
        while index < PLAYFIELD_SIZE
            invariant
                index <= PLAYFIELD_SIZE,
                self.wf(),
                forall|i: int| 0 <= i < index ==> #[trigger] self.playfield@[i] == showcase_cell(i),
                self.piece == old(self).piece,
                self.target_piece_x == old(self).target_piece_x,
                self.target_piece_y == old(self).target_piece_y,
                self.target_tet_rot == old(self).target_tet_rot,
                self.last_down_ms == old(self).last_down_ms,
                self.primitives == old(self).primitives,
            decreases PLAYFIELD_SIZE - index,
        {
            let r = index / PLAYFIELD_COLS;
            let c = index % PLAYFIELD_COLS;
            let rb = r / 4;
            let ri = r % 4;
            let tetind = if c < 5 { rb } else { 4 + rb };
            let ci = if c < 5 { c } else { (PLAYFIELD_COLS - c) - 1 };
            let tetromino = shape_of(tetind);
            self.playfield[index] = if tetromino.is_solid(ci, ri) { tetind } else { 0 };
            index += 1;
        }
    }

    /// Recolors every board record from the cell it draws.
    fn paint_board(&mut self)
        requires
            old(self).wf(),
        ensures
            final(self).wf(),
            final(self).playfield == old(self).playfield,
            final(self).piece == old(self).piece,
            final(self).target_piece_x == old(self).target_piece_x,
            final(self).target_piece_y == old(self).target_piece_y,
            final(self).target_tet_rot == old(self).target_tet_rot,
            final(self).last_down_ms == old(self).last_down_ms,
            forall|i: int|
                0 <= i < PLAYFIELD_SIZE ==> #[trigger] final(self).primitives@[i] == board_prim(
                    old(self).primitives@[i],
                    old(self).playfield@[i],
                ),
            forall|i: int|
                PLAYFIELD_SIZE <= i < PRIM_BUFFER_LEN ==> #[trigger] final(self).primitives@[i]
                    == old(self).primitives@[i],
    {
        let mut idx: usize = 0;
        while idx < PLAYFIELD_SIZE
            invariant
                idx <= PLAYFIELD_SIZE,
                self.wf(),
                self.playfield == old(self).playfield,
                self.piece == old(self).piece,
                self.target_piece_x == old(self).target_piece_x,
                self.target_piece_y == old(self).target_piece_y,
                self.target_tet_rot == old(self).target_tet_rot,
                self.last_down_ms == old(self).last_down_ms,
                forall|i: int|
                    0 <= i < idx ==> #[trigger] self.primitives@[i] == board_prim(
                        old(self).primitives@[i],
                        old(self).playfield@[i],
                    ),
                forall|i: int|
                    idx <= i < PRIM_BUFFER_LEN ==> #[trigger] self.primitives@[i]
                        == old(self).primitives@[i],
            decreases PLAYFIELD_SIZE - idx,
        {
            let cell = self.playfield[idx];
            let mut prim = self.primitives[idx];
            prim.color = color_of(cell);
            prim.color_stroke = OPAQUE_BLACK;
            prim.shimmer = cell == 0;
            self.primitives.set(idx, prim);
            idx += 1;
        }
    }

    /// Redraws the 16 records of the piece's box from the piece.
    fn paint_piece(&mut self)
        requires
            old(self).wf(),
        ensures
            final(self).wf(),
            final(self).playfield == old(self).playfield,
            final(self).piece == old(self).piece,
            final(self).target_piece_x == old(self).target_piece_x,
            final(self).target_piece_y == old(self).target_piece_y,
            final(self).target_tet_rot == old(self).target_tet_rot,
            final(self).last_down_ms == old(self).last_down_ms,
            forall|i: int|
                0 <= i < PIECE_PRIMS_START ==> #[trigger] final(self).primitives@[i]
                    == old(self).primitives@[i],
            forall|i: int|
                PIECE_PRIMS_START <= i < PIECE_PRIMS_START + PIECE_PRIMS_LEN
                    ==> #[trigger] final(self).primitives@[i] == piece_prim(
                    old(self).primitives@[i],
                    old(self).piece@,
                    i - PIECE_PRIMS_START,
                ),
            forall|i: int|
                PIECE_PRIMS_START + PIECE_PRIMS_LEN <= i < PRIM_BUFFER_LEN
                    ==> #[trigger] final(self).primitives@[i] == old(self).primitives@[i],
    {
        let color = color_of(self.piece.kind);
        let mut j: usize = 0;
        while j < PIECE_PRIMS_LEN
            invariant
                j <= PIECE_PRIMS_LEN,
                self.wf(),
                color == kind_color(self.piece.kind),
                self.playfield == old(self).playfield,
                self.piece == old(self).piece,
                self.target_piece_x == old(self).target_piece_x,
                self.target_piece_y == old(self).target_piece_y,
                self.target_tet_rot == old(self).target_tet_rot,
                self.last_down_ms == old(self).last_down_ms,
                forall|i: int|
                    0 <= i < PIECE_PRIMS_START ==> #[trigger] self.primitives@[i]
                        == old(self).primitives@[i],
                forall|i: int|
                    PIECE_PRIMS_START <= i < PIECE_PRIMS_START + j
                        ==> #[trigger] self.primitives@[i] == piece_prim(
                        old(self).primitives@[i],
                        old(self).piece@,
                        i - PIECE_PRIMS_START,
                    ),
                forall|i: int|
                    PIECE_PRIMS_START + j <= i < PRIM_BUFFER_LEN ==> #[trigger] self.primitives@[i]
                        == old(self).primitives@[i],
            decreases PIECE_PRIMS_LEN - j,
        {
            let c = j % 4;
            let r = j / 4;
            let idx = PIECE_PRIMS_START + j;
            let mut prim = self.primitives[idx];
            prim.translate_x = (self.piece.pos[0] as i64 + c as i64) * TETRION_SIZE;
            prim.translate_y = (self.piece.pos[1] as i64 + r as i64) * TETRION_SIZE;
            if self.piece.matrix.is_solid(c, r) {
                prim.color = color;
                prim.color_stroke = color;
                prim.shimmer = false;
                prim.width_milli = OUTLINE_WIDTH_MILLI;
                prim.z_index = PLAYFIELD_SIZE as i32;
            } else {
                prim.color = INVISIBLE;
                prim.color_stroke = INVISIBLE;
            }
            self.primitives.set(idx, prim);
            j += 1;
        }
    }
}

} // verus!
