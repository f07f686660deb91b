//! Formation enemies. An enemy carries a row kind (sprite only), animates,
//! and is moved by the formation logic: the whole group slides left or
//! right and steps down when it reaches a horizontal bound.

use vstd::prelude::*;
use crate::anim::{Anim, anim_inv, anim_stepped};
use crate::geom::Rect;

verus! {

pub const ENEMY_W: i64 = 50_000;

pub const ENEMY_H: i64 = 30_000;

pub const ENEMY_ANIMATION_SPEED: u32 = 11;

pub const ENEMY_FRAME_COUNT: usize = 2;

/// Formation x bound on the left: a member crossing below it flips the
/// formation direction.
pub const ENEMY_LEFT_BOUND: i64 = 0;

/// Formation x bound on the right: a member crossing above it flips the
/// formation direction.
pub const ENEMY_RIGHT_BOUND: i64 = 650_000;

/// Vertical step applied to every member when the formation hits a bound.
pub const ENEMY_PULL_DOWN: i64 = 10_000;

/// Which sprite set an enemy row uses; purely cosmetic.
#[derive(Clone, Copy, PartialEq, Eq, Structural, Debug)]
pub enum EnemyKind {
    E,
    A,
    B,
}

#[derive(Clone, Copy, PartialEq, Eq, Structural, Debug)]
pub struct Enemy {
    pub x: i64,
    pub y: i64,
    pub kind: EnemyKind,
    pub anim: Anim,
    pub destroyed: bool,
}

pub open spec fn enemy_rect(e: Enemy) -> Rect {
    Rect { x: e.x, y: e.y, w: ENEMY_W, h: ENEMY_H }
}

pub open spec fn enemy_anim_inv(e: Enemy) -> bool {
    anim_inv(e.anim, ENEMY_ANIMATION_SPEED, ENEMY_FRAME_COUNT)
}

impl Enemy {
    pub fn new(x: i64, y: i64, kind: EnemyKind) -> (e: Enemy)
        ensures
            e == (Enemy { x, y, kind, anim: Anim { interval: 0u32, frame: 0usize }, destroyed: false }),
    {
        Enemy { x, y, kind, anim: Anim::new(), destroyed: false }
    }

    /// One animation update at the enemy's threshold and frame count.
    pub fn update_animation(&mut self)
        requires
            enemy_anim_inv(*old(self)),
        ensures
            *final(self) == (Enemy {
                anim: anim_stepped(old(self).anim, ENEMY_ANIMATION_SPEED, ENEMY_FRAME_COUNT),
                ..*old(self)
            }),
    {
        self.anim.step(ENEMY_ANIMATION_SPEED, ENEMY_FRAME_COUNT);
    }

    /// The bounding rectangle, recomputed from the current position.
    pub fn rect(&self) -> (r: Rect)
        ensures
            r == enemy_rect(*self),
    {
        Rect { x: self.x, y: self.y, w: ENEMY_W, h: ENEMY_H }
    }
}

} // verus!
