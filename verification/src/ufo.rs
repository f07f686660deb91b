//! The bonus saucer. It spawns off screen at the left or right edge, flies
//! horizontally across, and destroys itself when it has fully exited the
//! opposite edge. Only the saucer at index 0 of its collection is ever
//! moved, drawn or collided against.

use vstd::prelude::*;
use crate::Dir;
use crate::anim::{Anim, anim_inv, anim_stepped};
use crate::geom::{Rect, MAX_COORD};

verus! {

pub const UFO_W: i64 = 100_000;

pub const UFO_H: i64 = 20_000;

/// Horizontal speed in milli-pixels per frame.
pub const UFO_SPEED: i64 = 3_000;

pub const UFO_ANIMATION_SPEED: u32 = 7;

pub const UFO_FRAME_COUNT: usize = 5;

/// Spawn x for a saucer entering from the left edge.
pub const UFO_LEFT_SPAWN_X: i64 = -200_000;

/// Spawn x for a saucer entering from the right edge.
pub const UFO_RIGHT_SPAWN_X: i64 = 700_000;

pub const UFO_Y: i64 = 10_000;

/// A left-spawned saucer self-destroys past the right edge of the window.
pub const UFO_EXIT_RIGHT_X: i64 = 700_000;

/// A right-spawned saucer self-destroys once fully past the left edge.
pub const UFO_EXIT_LEFT_X: i64 = -100_000;

#[derive(Clone, Copy, PartialEq, Eq, Structural, Debug)]
pub struct Ufo {
    pub x: i64,
    pub y: i64,
    pub side: Dir,
    pub anim: Anim,
    pub destroyed: bool,
}

pub open spec fn ufo_rect(u: Ufo) -> Rect {
    Rect { x: u.x, y: u.y, w: UFO_W, h: UFO_H }
}

pub open spec fn ufo_anim_inv(u: Ufo) -> bool {
    anim_inv(u.anim, UFO_ANIMATION_SPEED, UFO_FRAME_COUNT)
}

pub open spec fn ufo_spawn_x(side: Dir) -> i64 {
    match side {
        Dir::Left => UFO_LEFT_SPAWN_X,
        Dir::Right => UFO_RIGHT_SPAWN_X,
    }
}

/// The saucer after one movement update: it flies away from its spawn side
/// and is flagged destroyed once it has exited the opposite edge.
pub open spec fn ufo_after(u: Ufo) -> Ufo {
    match u.side {
        Dir::Right => Ufo {
            x: (u.x - UFO_SPEED) as i64,
            destroyed: u.destroyed || u.x - UFO_SPEED < UFO_EXIT_LEFT_X,
            ..u
        },
        Dir::Left => Ufo {
            x: (u.x + UFO_SPEED) as i64,
            destroyed: u.destroyed || u.x + UFO_SPEED > UFO_EXIT_RIGHT_X,
            ..u
        },
    }
}

impl Ufo {
    pub fn new(from_side: Dir) -> (u: Ufo)
        ensures
            u == (Ufo {
                x: ufo_spawn_x(from_side),
                y: UFO_Y,
                side: from_side,
                anim: Anim { interval: 0u32, frame: 0usize },
                destroyed: false,
            }),
    {
        let x: i64 = match from_side {
            Dir::Left => UFO_LEFT_SPAWN_X,
            Dir::Right => UFO_RIGHT_SPAWN_X,
        };
        Ufo { x, y: UFO_Y, side: from_side, anim: Anim::new(), destroyed: false }
    }

    /// One frame of movement away from the spawn side, with self-destruction
    /// on exiting the opposite edge.
    pub fn update(&mut self)
        requires
            -MAX_COORD <= old(self).x <= MAX_COORD,
        ensures
            *final(self) == ufo_after(*old(self)),
    {
        match self.side {
            Dir::Right => {
                self.x = self.x - UFO_SPEED;
                if self.x < UFO_EXIT_LEFT_X {
                    self.destroyed = true;
                }
            },
            Dir::Left => {
                self.x = self.x + UFO_SPEED;
                if self.x > UFO_EXIT_RIGHT_X {
                    self.destroyed = true;
                }
            },
        }
    }

    /// One animation update at the saucer's threshold and frame count.
    pub fn update_animation(&mut self)
        requires
            ufo_anim_inv(*old(self)),
        ensures
            *final(self) == (Ufo {
                anim: anim_stepped(old(self).anim, UFO_ANIMATION_SPEED, UFO_FRAME_COUNT),
                ..*old(self)
            }),
    {
        self.anim.step(UFO_ANIMATION_SPEED, UFO_FRAME_COUNT);
    }

    /// The bounding rectangle, recomputed from the current position.
    pub fn rect(&self) -> (r: Rect)
        ensures
            r == ufo_rect(*self),
    {
        Rect { x: self.x, y: self.y, w: UFO_W, h: UFO_H }
    }
}

} // verus!
