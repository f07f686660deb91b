//! Core logic of a fixed-screen shooter: a player ship defends against
//! descending rows of enemies that drop bombs while a bonus saucer crosses
//! the screen.
//!
//! All positions and sizes are integers in milli-pixels (one pixel is 1000
//! units) and all times are integer milliseconds, so every rule of the game
//! is stated and proved exactly. Rendering, asset loading, input polling and
//! the clock live outside this crate; the library receives plain values
//! (key flags, the current time, the frame delta) and hands back plain
//! entity positions to draw.

pub mod anim;
pub mod block;
pub mod bomb;
pub mod bullet;
pub mod enemy;
pub mod game;
pub mod gc;
pub mod geom;
pub mod machine;
pub mod phases;
pub mod player;
pub(crate) mod rng;
pub mod spawn;
pub mod ufo;

use vstd::prelude::*;

verus! {

/// The state of the per-frame machine. `Paused` is present but no
/// transition enters it.
#[derive(Clone, Copy, PartialEq, Eq, Structural, Debug)]
pub enum GameState {
    Intro,
    InitLevel,
    Game,
    LevelFail,
    Paused,
    GameOver,
    LevelCompleted,
}

/// A horizontal direction: the shared movement direction of the enemy
/// formation, and the side a saucer spawns from.
#[derive(Clone, Copy, PartialEq, Eq, Structural, Debug)]
pub enum Dir {
    Left,
    Right,
}

pub open spec fn flipped(d: Dir) -> Dir {
    match d {
        Dir::Left => Dir::Right,
        Dir::Right => Dir::Left,
    }
}

/// The logical input of one frame: movement keys held, the fire key held,
/// and whether the confirm key was pressed this frame.
#[derive(Clone, Copy, PartialEq, Eq, Structural, Debug)]
pub struct Input {
    pub left: bool,
    pub right: bool,
    pub shoot: bool,
    pub confirm: bool,
}

} // verus!
