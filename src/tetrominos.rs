use vstd::prelude::*;

verus! {

/// Index of a piece kind: 0 stands for "no piece", 1 to 7 for I, O, T, S, Z, J, L.
pub type Tetromino = usize;

/// Number of entries of the kind tables, the empty kind included.
pub const KIND_COUNT: usize = 8;

/// First kind that is a real piece.
pub const TI: Tetromino = 1;

/// Last kind that is a real piece.
pub const TL: Tetromino = 7;

/// One rotation of a piece: a 4x4 grid for I and O, a 3x3 grid for the others.
/// Rows come first: `t[y][x]` is the cell in row `y`, column `x`.
#[derive(Clone, Copy, Debug, PartialEq, Eq)]
pub enum TetroShape {
    Even([[bool; 4]; 4]),
    Odd([[bool; 3]; 3]),
}

pub open spec fn grid3(t: [[bool; 3]; 3]) -> Seq<Seq<bool>> {
    seq![t[0]@, t[1]@, t[2]@]
}

pub open spec fn grid4(t: [[bool; 4]; 4]) -> Seq<Seq<bool>> {
    seq![t[0]@, t[1]@, t[2]@, t[3]@]
}

/// A grid with `n` rows of `n` cells each.
pub open spec fn is_square(g: Seq<Seq<bool>>) -> bool {
    forall|i: int| 0 <= i < g.len() ==> (#[trigger] g[i]).len() == g.len()
}

/// Whether cell (`x`, `y`) of the grid is filled; cells outside the grid are not.
pub open spec fn grid_solid(g: Seq<Seq<bool>>, x: int, y: int) -> bool {
    0 <= y < g.len() && 0 <= x < g[y].len() && g[y][x]
}

/// One clockwise quarter turn: row `r` of the result is column `r` of `g` read bottom-up.
pub open spec fn rotate_grid(g: Seq<Seq<bool>>) -> Seq<Seq<bool>> {
    Seq::new(g.len(), |r: int| Seq::new(g.len(), |c: int| g[g.len() - 1 - c][r]))
}

/// `k` clockwise quarter turns.
pub open spec fn rotate_grid_by(g: Seq<Seq<bool>>, k: nat) -> Seq<Seq<bool>>
    decreases k,
{
    if k == 0 {
        g
    } else {
        rotate_grid_by(rotate_grid(g), (k - 1) as nat)
    }
}

impl View for TetroShape {
    type V = Seq<Seq<bool>>;

    open spec fn view(&self) -> Seq<Seq<bool>> {
        match *self {
            TetroShape::Even(t) => grid4(t),
            TetroShape::Odd(t) => grid3(t),
        }
    }
}

impl TetroShape {
    /// Whether local cell (`x`, `y`) is filled; anything outside the grid is empty,
    /// so that a 3x3 shape can be scanned as a 4x4 one.
    pub fn is_solid(&self, x: usize, y: usize) -> (r: bool)
        ensures
            r == grid_solid(self@, x as int, y as int),
    {
        match self {
            TetroShape::Odd(t) => {
                if x < 3 && y < 3 {
                    t[y][x]
                } else {
                    false
                }
            },
            TetroShape::Even(t) => {
                if x < 4 && y < 4 {
                    t[y][x]
                } else {
                    false
                }
            },
        }
    }

    /// The shape turned clockwise `steps` times, as a new value of the same size.
    pub fn rotated(&self, steps: u8) -> (r: TetroShape)
        ensures
            r@ == rotate_grid_by(self@, steps as nat),
    {
        match self {
            TetroShape::Odd(t) => TetroShape::Odd(rotated3(*t, steps)),
            TetroShape::Even(t) => TetroShape::Even(rotated4(*t, steps)),
        }
    }
}

fn rotated3(m: [[bool; 3]; 3], steps: u8) -> (r: [[bool; 3]; 3])
    ensures
        grid3(r) == rotate_grid_by(grid3(m), steps as nat),
    decreases steps,
{
    if steps == 0 {
        m
    } else {
        let turned = [
            [m[2][0], m[1][0], m[0][0]],
            [m[2][1], m[1][1], m[0][1]],
            [m[2][2], m[1][2], m[0][2]],
        ];
        assert(grid3(turned) =~~= rotate_grid(grid3(m)));
        rotated3(turned, steps - 1)
    }
}

fn rotated4(x: [[bool; 4]; 4], steps: u8) -> (r: [[bool; 4]; 4])
    ensures
        grid4(r) == rotate_grid_by(grid4(x), steps as nat),
    decreases steps,
{
    if steps == 0 {
        x
    } else {
        let turned = [
            [x[3][0], x[2][0], x[1][0], x[0][0]],
            [x[3][1], x[2][1], x[1][1], x[0][1]],
            [x[3][2], x[2][2], x[1][2], x[0][2]],
            [x[3][3], x[2][3], x[1][3], x[0][3]],
        ];
        assert(grid4(turned) =~~= rotate_grid(grid4(x)));
        rotated4(turned, steps - 1)
    }
}

/// A filled cell, as written in the shape tables.
pub const XX: bool = true;

/// An empty cell, as written in the shape tables.
pub const __: bool = false;

/// The grid of each kind in its spawn rotation; kind 0 is an empty 3x3 grid.
pub open spec fn shape_grid(kind: Tetromino) -> Seq<Seq<bool>> {
    if kind == 1 {
        seq![
            seq![__, __, __, __],
            seq![XX, XX, XX, XX],
            seq![__, __, __, __],
            seq![__, __, __, __],
        ]
    } else if kind == 2 {
        seq![
            seq![__, __, __, __],
            seq![__, XX, XX, __],
            seq![__, XX, XX, __],
            seq![__, __, __, __],
        ]
    } else if kind == 3 {
        seq![seq![__, __, __], seq![__, XX, __], seq![XX, XX, XX]]
    } else if kind == 4 {
        seq![seq![__, __, __], seq![__, XX, XX], seq![XX, XX, __]]
    } else if kind == 5 {
        seq![seq![__, __, __], seq![XX, XX, __], seq![__, XX, XX]]
    } else if kind == 6 {
        seq![seq![__, __, XX], seq![__, __, XX], seq![__, XX, XX]]
    } else if kind == 7 {
        seq![seq![XX, __, __], seq![XX, __, __], seq![XX, XX, __]]
    } else {
        seq![seq![__, __, __], seq![__, __, __], seq![__, __, __]]
    }
}

/// The shape of a kind in its spawn rotation.
pub fn shape_of(kind: Tetromino) -> (s: TetroShape)
    requires
        kind < KIND_COUNT,
    ensures
        s@ == shape_grid(kind),
{
    let s = if kind == 1 {
        TetroShape::Even(
            [[__, __, __, __], [XX, XX, XX, XX], [__, __, __, __], [__, __, __, __]],
        )
    } else if kind == 2 {
        TetroShape::Even(
            [[__, __, __, __], [__, XX, XX, __], [__, XX, XX, __], [__, __, __, __]],
        )
    } else if kind == 3 {
        TetroShape::Odd([[__, __, __], [__, XX, __], [XX, XX, XX]])
    } else if kind == 4 {
        TetroShape::Odd([[__, __, __], [__, XX, XX], [XX, XX, __]])
    } else if kind == 5 {
        TetroShape::Odd([[__, __, __], [XX, XX, __], [__, XX, XX]])
    } else if kind == 6 {
        TetroShape::Odd([[__, __, XX], [__, __, XX], [__, XX, XX]])
    } else if kind == 7 {
        TetroShape::Odd([[XX, __, __], [XX, __, __], [XX, XX, __]])
    } else {
        TetroShape::Odd([[__, __, __], [__, __, __], [__, __, __]])
    };
    assert(s@ =~~= shape_grid(kind));
    s
}

/// Fill color of each kind as 8-bit RGBA packed into a `u32`, red in the top byte.
/// Kind 0 is fully transparent black and marks an empty cell.
pub open spec fn kind_color(kind: Tetromino) -> u32 {
    if kind == 1 {
        0x00C0C0FF
    } else if kind == 2 {
        0xFDE01AFF
    } else if kind == 3 {
        0x732982FF
    } else if kind == 4 {
        0x007940FF
    } else if kind == 5 {
        0xD12229FF
    } else if kind == 6 {
        0x24408EFF
    } else if kind == 7 {
        0xF68A1EFF
    } else {
        0x00000000
    }
}

/// The entry of the color table for a kind.
pub fn color_of(kind: Tetromino) -> (c: u32)
    requires
        kind < KIND_COUNT,
    ensures
        c == kind_color(kind),
{
    if kind == 1 {
        0x00C0C0FF
    } else if kind == 2 {
        0xFDE01AFF
    } else if kind == 3 {
        0x732982FF
    } else if kind == 4 {
        0x007940FF
    } else if kind == 5 {
        0xD12229FF
    } else if kind == 6 {
        0x24408EFF
    } else if kind == 7 {
        0xF68A1EFF
    } else {
        0x00000000
    }
}

/// Display name of each kind.
pub open spec fn kind_name_spec(kind: Tetromino) -> Seq<char> {
    if kind == 1 {
        seq!['I']
    } else if kind == 2 {
        seq!['O']
    } else if kind == 3 {
        seq!['T']
    } else if kind == 4 {
        seq!['S']
    } else if kind == 5 {
        seq!['Z']
    } else if kind == 6 {
        seq!['J']
    } else if kind == 7 {
        seq!['L']
    } else {
        seq!['N', 'O', 'N', 'E']
    }
}

/// The display name of a kind.
pub fn kind_name(kind: Tetromino) -> (r: &'static str)
    requires
        kind < KIND_COUNT,
    ensures
        r@ == kind_name_spec(kind),
{
    proof {
        reveal_strlit("I");
        reveal_strlit("O");
        reveal_strlit("T");
        reveal_strlit("S");
        reveal_strlit("Z");
        reveal_strlit("J");
        reveal_strlit("L");
        reveal_strlit("NONE");
    }
    if kind == 1 {
        "I"
    } else if kind == 2 {
        "O"
    } else if kind == 3 {
        "T"
    } else if kind == 4 {
        "S"
    } else if kind == 5 {
        "Z"
    } else if kind == 6 {
        "J"
    } else if kind == 7 {
        "L"
    } else {
        "NONE"
    }
}

/// Every shape of the table, and every rotation of one, is an `n` by `n` grid.
pub proof fn lemma_rotation_keeps_square(g: Seq<Seq<bool>>, k: nat)
    requires
        is_square(g),
    ensures
        is_square(rotate_grid_by(g, k)),
        rotate_grid_by(g, k).len() == g.len(),
    decreases k,
{
    if k > 0 {
        lemma_rotation_keeps_square(rotate_grid(g), (k - 1) as nat);
    }
}

/// A quarter turn carries filled cell (`x`, `y`) of a square grid to cell (`n - 1 - y`, `x`).
pub proof fn lemma_rotate_moves_cell(g: Seq<Seq<bool>>, x: int, y: int)
    requires
        is_square(g),
        grid_solid(g, x, y),
    ensures
        grid_solid(rotate_grid(g), g.len() - 1 - y, x),
{
}

/// Every rotation of a real kind has a filled cell, inside its 4x4 box.
pub proof fn lemma_real_kind_has_cell(kind: Tetromino, k: nat)
    requires
        TI <= kind <= TL,
    ensures
        exists|x: int, y: int|
            0 <= x < 4 && 0 <= y < 4 && #[trigger] grid_solid(rotate_grid_by(shape_grid(kind), k), x, y),
{
    let g = shape_grid(kind);
    assert(grid_solid(g, 1, 2) || grid_solid(g, 2, 2) || grid_solid(g, 0, 1));
    if grid_solid(g, 1, 2) {
        lemma_rotated_has_cell(g, k, 1, 2);
    } else if grid_solid(g, 2, 2) {
        lemma_rotated_has_cell(g, k, 2, 2);
    } else {
        lemma_rotated_has_cell(g, k, 0, 1);
    }
}

proof fn lemma_rotated_has_cell(g: Seq<Seq<bool>>, k: nat, x: int, y: int)
    requires
        is_square(g),
        g.len() <= 4,
        grid_solid(g, x, y),
    ensures
        exists|x2: int, y2: int|
            0 <= x2 < 4 && 0 <= y2 < 4 && #[trigger] grid_solid(rotate_grid_by(g, k), x2, y2),
    decreases k,
{
    assert(g[y].len() == g.len());
    if k == 0 {
        assert(grid_solid(rotate_grid_by(g, 0), x, y));
    } else {
        let h = rotate_grid(g);
        assert(is_square(h));
        lemma_rotate_moves_cell(g, x, y);
        lemma_rotated_has_cell(h, (k - 1) as nat, g.len() - 1 - y, x);
        assert(rotate_grid_by(g, k) == rotate_grid_by(h, (k - 1) as nat));
    }
}

/// Turning zero times is the identity; turning `steps > 0` times is one turn followed by
/// `steps - 1` more; four turns give back the grid one started from.
pub proof fn lemma_rotation_steps(s: TetroShape, steps: nat)
    ensures
        rotate_grid_by(s@, 0) == s@,
        steps > 0 ==> rotate_grid_by(s@, steps) == rotate_grid_by(
            rotate_grid_by(s@, 1),
            (steps - 1) as nat,
        ),
        rotate_grid_by(s@, 4) == s@,
{
    let g = s@;
    let n = g.len();
    assert(is_square(g));
    assert(rotate_grid_by(rotate_grid(g), 0) == rotate_grid(g));
    let g1 = rotate_grid(g);
    let g2 = rotate_grid(g1);
    let g3 = rotate_grid(g2);
    let g4 = rotate_grid(g3);
    assert(rotate_grid_by(g, 4) == g4) by {
        assert(rotate_grid_by(g4, 0) == g4);
        assert(rotate_grid_by(g3, 1) == g4);
        assert(rotate_grid_by(g2, 2) == g4);
        assert(rotate_grid_by(g1, 3) == g4);
    }
    assert(g4 =~~= g);
}

/// Quarter turns only matter modulo four.
pub proof fn lemma_rotation_mod_four(s: TetroShape, steps: nat)
    ensures
        rotate_grid_by(s@, steps) == rotate_grid_by(s@, steps % 4),
    decreases steps,
{
    if steps >= 4 {
        lemma_rotation_steps(s, 4);
        lemma_rotate_by_add(s@, 4, (steps - 4) as nat);
        lemma_rotation_mod_four(s, (steps - 4) as nat);
    }
}

/// `a + b` turns are `a` turns followed by `b` turns.
pub proof fn lemma_rotate_by_add(g: Seq<Seq<bool>>, a: nat, b: nat)
    ensures
        rotate_grid_by(g, a + b) == rotate_grid_by(rotate_grid_by(g, a), b),
    decreases a,
{
    if a > 0 {
        lemma_rotate_by_add(rotate_grid(g), (a - 1) as nat, b);
        assert((a + b - 1) as nat == ((a - 1) as nat + b));
    }
}

} // verus!
