use vstd::prelude::*;

use crate::board::{PLAYFIELD_COLS, PLAYFIELD_SIZE};

verus! {

/// Number of records in one entity's primitive buffer; a draw never binds more.
pub const PRIM_BUFFER_LEN: usize = 180;

/// Index of the first of the 16 records that draw the active piece's 4x4 box;
/// the records before it draw the board cells, one each.
pub const PIECE_PRIMS_START: usize = PLAYFIELD_SIZE;

/// Number of records that draw the active piece.
pub const PIECE_PRIMS_LEN: usize = 16;

/// Side of one board cell in scene units.
pub const TETRION_SIZE: i64 = 8;

/// Outline width of the drawn cells, in thousandths of a scene unit.
pub const OUTLINE_WIDTH_MILLI: u32 = 300;

/// Opaque black, packed RGBA.
pub const OPAQUE_BLACK: u32 = 0x000000FF;

/// A fully transparent color, packed RGBA, that hides a record.
pub const INVISIBLE: u32 = 0xFF00FF00;

/// One per-instance render record. Colors are 8-bit RGBA packed into a `u32` with red
/// in the top byte; lengths are whole scene units or thousandths of one.
/// `shimmer` marks a record whose outline brightness the renderer animates over time.
#[derive(Clone, Copy, Debug, PartialEq, Eq)]
pub struct Prim {
    pub color: u32,
    pub color_stroke: u32,
    pub shimmer: bool,
    pub translate_x: i64,
    pub translate_y: i64,
    pub z_index: i32,
    pub width_milli: u32,
    pub scale_milli: u32,
}

/// A fresh record: opaque black at the origin, drawn at the given scale.
pub open spec fn blank_prim(scale_milli: u32) -> Prim {
    Prim {
        color: OPAQUE_BLACK,
        color_stroke: 0,
        shimmer: false,
        translate_x: 0,
        translate_y: 0,
        z_index: 0,
        width_milli: 0,
        scale_milli,
    }
}

/// The record of board cell `i` before the first frame: placed on its cell, stacked
/// by index, outlined, and black.
pub open spec fn board_slot_prim(i: int, scale_milli: u32) -> Prim {
    Prim {
        color: OPAQUE_BLACK,
        color_stroke: 0,
        shimmer: false,
        translate_x: ((i % PLAYFIELD_COLS as int) * TETRION_SIZE) as i64,
        translate_y: ((i / PLAYFIELD_COLS as int) * TETRION_SIZE) as i64,
        z_index: (i + 1) as i32,
        width_milli: OUTLINE_WIDTH_MILLI,
        scale_milli,
    }
}

impl Prim {
    pub fn new_with_scale(scale_milli: u32) -> (p: Prim)
        ensures
            p == blank_prim(scale_milli),
    {
        Prim {
            color: OPAQUE_BLACK,
            color_stroke: 0,
            shimmer: false,
            translate_x: 0,
            translate_y: 0,
            z_index: 0,
            width_milli: 0,
            scale_milli,
        }
    }
}

/// A buffer of `PRIM_BUFFER_LEN` records: the board cells placed on their cells, the
/// rest blank.
pub fn new_primitives(scale_milli: u32) -> (v: Vec<Prim>)
    ensures
        v@.len() == PRIM_BUFFER_LEN,
        forall|i: int| 0 <= i < PLAYFIELD_SIZE ==> v@[i] == board_slot_prim(i, scale_milli),
        forall|i: int| PLAYFIELD_SIZE <= i < PRIM_BUFFER_LEN ==> v@[i] == blank_prim(scale_milli),
{
    let mut v: Vec<Prim> = Vec::new();
    while v.len() < PRIM_BUFFER_LEN
        invariant
            v@.len() <= PRIM_BUFFER_LEN,
            forall|i: int| 0 <= i < v@.len() && i < PLAYFIELD_SIZE ==> v@[i] == board_slot_prim(i, scale_milli),
            forall|i: int| PLAYFIELD_SIZE <= i < v@.len() ==> v@[i] == blank_prim(scale_milli),
        decreases PRIM_BUFFER_LEN - v@.len(),
    {
        let idx = v.len();
        let mut p = Prim::new_with_scale(scale_milli);
        if idx < PLAYFIELD_SIZE {
            p.translate_x = (idx % PLAYFIELD_COLS) as i64 * TETRION_SIZE;
            p.translate_y = (idx / PLAYFIELD_COLS) as i64 * TETRION_SIZE;
            p.z_index = (idx + 1) as i32;
            p.width_milli = OUTLINE_WIDTH_MILLI;
        }
        v.push(p);
    }
    v
}

} // verus!
