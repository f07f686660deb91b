//! The player ship: horizontal movement only, bounded to the screen width.
//! Its sprite size is loaded outside the library and passed in as plain
//! width and height, from which its bounding rectangle derives.

use vstd::prelude::*;
use crate::geom::{Rect, MAX_COORD};

verus! {

/// Horizontal distance moved per frame while a direction key is held.
pub const PLAYER_MOVE_STEP: i64 = 4_000;

/// The player starts here and returns here on every level (re)start.
pub const PLAYER_START_X: i64 = 320_000;

/// The player's fixed vertical position.
pub const PLAYER_Y: i64 = 480_000;

/// Left movement is allowed only while x is above this bound.
pub const PLAYER_LEFT_BOUND: i64 = 0;

/// Right movement is allowed only while x is below this bound.
pub const PLAYER_RIGHT_BOUND: i64 = 630_000;

#[derive(Clone, Copy, PartialEq, Eq, Structural, Debug)]
pub struct Player {
    pub x: i64,
    pub y: i64,
    pub w: i64,
    pub h: i64,
}

pub open spec fn player_rect(p: Player) -> Rect {
    Rect { x: p.x, y: p.y, w: p.w, h: p.h }
}

pub open spec fn player_inv(p: Player) -> bool {
    &&& -MAX_COORD <= p.x <= MAX_COORD
    &&& p.y == PLAYER_Y
    &&& 0 <= p.w <= MAX_COORD
    &&& 0 <= p.h <= MAX_COORD
}

/// The player's x after one frame of input: first a left step if the left
/// key is held and the left bound allows it, then a right step if the right
/// key is held and the right bound allows it.
pub open spec fn player_moved_x(x: i64, left: bool, right: bool) -> int {
    let x1: int = if left && x > PLAYER_LEFT_BOUND {
        x - PLAYER_MOVE_STEP
    } else {
        x as int
    };
    if right && x1 < PLAYER_RIGHT_BOUND {
        x1 + PLAYER_MOVE_STEP
    } else {
        x1
    }
}

impl Player {
    /// A fresh player at the start position, with the sprite dimensions
    /// (in milli-pixels) that the bounding rectangle will use.
    pub fn new(w: i64, h: i64) -> (p: Player)
        ensures
            p == (Player { x: PLAYER_START_X, y: PLAYER_Y, w, h }),
    {
        Player { x: PLAYER_START_X, y: PLAYER_Y, w, h }
    }

    /// One frame of input-driven movement, bounded to the screen width.
    pub fn update(&mut self, left: bool, right: bool)
        requires
            player_inv(*old(self)),
        ensures
            final(self).x == player_moved_x(old(self).x, left, right),
            *final(self) == (Player {
                x: player_moved_x(old(self).x, left, right) as i64,
                ..*old(self)
            }),
            player_inv(*final(self)),
    {
        if left && self.x > PLAYER_LEFT_BOUND {
            self.x = self.x - PLAYER_MOVE_STEP;
        }
        if right && self.x < PLAYER_RIGHT_BOUND {
            self.x = self.x + PLAYER_MOVE_STEP;
        }
    }

    /// The bounding rectangle, recomputed from the current position.
    pub fn rect(&self) -> (r: Rect)
        ensures
            r == player_rect(*self),
    {
        Rect { x: self.x, y: self.y, w: self.w, h: self.h }
    }
}

} // verus!
