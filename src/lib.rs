//! Core of a side-scrolling "flap through the gap" arcade game: player
//! physics, obstacle generation and collision, and the game-mode state
//! machine. Drawing is emitted as a list of commands for the host to run.
use vstd::prelude::*;

pub mod command;
pub mod obstacle;
pub mod player;
pub mod session;

verus! {

/// Width of the play field, in columns.
pub const SCREEN_WIDTH: i32 = 80;

/// Height of the play field, in rows.
pub const SCREEN_HEIGHT: i32 = 50;

} // verus!
