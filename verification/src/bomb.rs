//! Enemy projectiles: bombs fall at a constant speed, carry a cosmetic
//! sprite kind, animate while falling, and destroy themselves when they
//! leave the bottom of the play field.

use vstd::prelude::*;
use crate::anim::{Anim, anim_inv, anim_stepped};
use crate::geom::{Rect, MAX_COORD};

verus! {

pub const BOMB_W: i64 = 8_000;

pub const BOMB_H: i64 = 15_000;

/// Downward speed in milli-pixels per millisecond (300 pixels per second).
pub const BOMB_SPEED: i64 = 300;

/// A bomb below this line has left the play field and self-destroys.
pub const BOMB_FLOOR_Y: i64 = 500_000;

pub const BOMB_ANIMATION_SPEED: u32 = 9;

pub const BOMB_FRAME_COUNT: usize = 2;

/// Which of the two bomb sprite sets a bomb uses; purely cosmetic.
#[derive(Clone, Copy, PartialEq, Eq, Structural, Debug)]
pub enum BombKind {
    A,
    B,
}

#[derive(Clone, Copy, PartialEq, Eq, Structural, Debug)]
pub struct Bomb {
    pub x: i64,
    pub y: i64,
    pub kind: BombKind,
    pub anim: Anim,
    pub destroyed: bool,
}

pub open spec fn bomb_rect(b: Bomb) -> Rect {
    Rect { x: b.x, y: b.y, w: BOMB_W, h: BOMB_H }
}

pub open spec fn bomb_inv(b: Bomb) -> bool {
    &&& -2 * MAX_COORD <= b.x <= 2 * MAX_COORD
    &&& -MAX_COORD <= b.y <= MAX_COORD
    &&& anim_inv(b.anim, BOMB_ANIMATION_SPEED, BOMB_FRAME_COUNT)
}

/// The bomb after one movement update over `dt` milliseconds: it falls
/// `BOMB_SPEED * dt`, and is flagged destroyed once it is below the floor.
pub open spec fn bomb_after(b: Bomb, dt: u32) -> Bomb {
    let y2 = b.y + BOMB_SPEED * dt;
    Bomb { y: y2 as i64, destroyed: b.destroyed || y2 > BOMB_FLOOR_Y, ..b }
}

impl Bomb {
    pub fn new(x: i64, y: i64, kind: BombKind) -> (b: Bomb)
        ensures
            b == (Bomb { x, y, kind, anim: Anim { interval: 0u32, frame: 0usize }, destroyed: false }),
    {
        Bomb { x, y, kind, anim: Anim::new(), destroyed: false }
    }

    /// One frame of movement: fall by `BOMB_SPEED * dt` and self-destroy
    /// upon leaving the bottom of the play field.
    pub fn update(&mut self, dt: u32)
        requires
            -MAX_COORD <= old(self).y <= MAX_COORD,
        ensures
            *final(self) == bomb_after(*old(self), dt),
            final(self).y == old(self).y + BOMB_SPEED * dt,
            final(self).destroyed == (old(self).destroyed || final(self).y > BOMB_FLOOR_Y),
    {
        self.y = self.y + (dt as i64) * BOMB_SPEED;
        if self.y > BOMB_FLOOR_Y {
            self.destroyed = true;
        }
    }

    /// One animation update at the bomb's threshold and frame count.
    pub fn update_animation(&mut self)
        requires
            anim_inv(old(self).anim, BOMB_ANIMATION_SPEED, BOMB_FRAME_COUNT),
        ensures
            *final(self) == (Bomb {
                anim: anim_stepped(old(self).anim, BOMB_ANIMATION_SPEED, BOMB_FRAME_COUNT),
                ..*old(self)
            }),
    {
        self.anim.step(BOMB_ANIMATION_SPEED, BOMB_FRAME_COUNT);
    }

    /// The bounding rectangle, recomputed from the current position.
    pub fn rect(&self) -> (r: Rect)
        ensures
            r == bomb_rect(*self),
    {
        Rect { x: self.x, y: self.y, w: BOMB_W, h: BOMB_H }
    }
}

} // verus!
