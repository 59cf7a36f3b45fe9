//! Core of a falling-block puzzle game: the piece shapes and their rotations, the board
//! and its placement rule, the piece state machine driven frame by frame, and the
//! per-instance render records that the renderer draws from.

pub mod board;
pub mod entity;
pub mod frame;
pub mod game;
pub mod input;
pub mod render;
pub mod tetrominos;
