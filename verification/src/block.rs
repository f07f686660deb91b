//! Destructible block obstacles: static 10x10 squares sitting between the
//! player and the enemy formation, destroyed on any collision.

use vstd::prelude::*;
use crate::geom::{Rect, MAX_COORD};

verus! {

pub const BLOCK_W: i64 = 10_000;

pub const BLOCK_H: i64 = 10_000;

#[derive(Clone, Copy, PartialEq, Eq, Structural, Debug)]
pub struct Block {
    pub x: i64,
    pub y: i64,
    pub destroyed: bool,
}

pub open spec fn block_rect(b: Block) -> Rect {
    Rect { x: b.x, y: b.y, w: BLOCK_W, h: BLOCK_H }
}

pub open spec fn block_inv(b: Block) -> bool {
    &&& -MAX_COORD <= b.x <= MAX_COORD
    &&& -MAX_COORD <= b.y <= MAX_COORD
}

impl Block {
    pub fn new(x: i64, y: i64) -> (b: Block)
        ensures
            b == (Block { x, y, destroyed: false }),
    {
        Block { x, y, destroyed: false }
    }

    /// The bounding rectangle, recomputed from the current position.
    pub fn rect(&self) -> (r: Rect)
        ensures
            r == block_rect(*self),
    {
        Rect { x: self.x, y: self.y, w: BLOCK_W, h: BLOCK_H }
    }
}

} // verus!
