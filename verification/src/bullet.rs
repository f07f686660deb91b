//! The player's projectile. At most one bullet is live at a time; it moves
//! straight up at a constant speed and destroys itself when it leaves the
//! top of the screen.

use vstd::prelude::*;
use crate::geom::{Rect, MAX_COORD};

verus! {

pub const BULLET_W: i64 = 6_000;

pub const BULLET_H: i64 = 11_000;

/// Upward speed in milli-pixels per millisecond (300 pixels per second).
pub const BULLET_SPEED: i64 = 300;

/// A fresh bullet spawns this far right of the player's x position.
pub const BULLET_OFFSET_X: i64 = 32_000;

#[derive(Clone, Copy, PartialEq, Eq, Structural, Debug)]
pub struct Bullet {
    pub x: i64,
    pub y: i64,
    pub destroyed: bool,
}

pub open spec fn bullet_rect(b: Bullet) -> Rect {
    Rect { x: b.x, y: b.y, w: BULLET_W, h: BULLET_H }
}

pub open spec fn bullet_inv(b: Bullet) -> bool {
    &&& -2 * MAX_COORD <= b.x <= 2 * MAX_COORD
    &&& -MAX_COORD <= b.y <= MAX_COORD
}

/// The bullet after one movement update over `dt` milliseconds: it climbs
/// `BULLET_SPEED * dt`, and is flagged destroyed the moment its y coordinate
/// goes below the top of the screen.
pub open spec fn bullet_after(b: Bullet, dt: u32) -> Bullet {
    let y2 = b.y - BULLET_SPEED * dt;
    Bullet { x: b.x, y: y2 as i64, destroyed: b.destroyed || y2 < 0 }
}

impl Bullet {
    pub fn new(x: i64, y: i64) -> (b: Bullet)
        ensures
            b == (Bullet { x, y, destroyed: false }),
    {
        Bullet { x, y, destroyed: false }
    }

    /// One frame of movement: climb by `BULLET_SPEED * dt` and self-destroy
    /// upon leaving the top of the screen (y < 0).
    pub fn update(&mut self, dt: u32)
        requires
            -MAX_COORD <= old(self).y <= MAX_COORD,
        ensures
            *final(self) == bullet_after(*old(self), dt),
            final(self).y == old(self).y - BULLET_SPEED * dt,
            final(self).destroyed == (old(self).destroyed || final(self).y < 0),
    {
        self.y = self.y - (dt as i64) * BULLET_SPEED;
        if self.y < 0 {
            self.destroyed = true;
        }
    }

    /// The bounding rectangle, recomputed from the current position.
    pub fn rect(&self) -> (r: Rect)
        ensures
            r == bullet_rect(*self),
    {
        Rect { x: self.x, y: self.y, w: BULLET_W, h: BULLET_H }
    }
}

} // verus!
