//! Sprite-animation bookkeeping shared by bombs, enemies and the saucer:
//! a frame-advance counter and the index of the current frame. Every update
//! bumps the counter; once it exceeds the per-type threshold it resets and
//! the frame index advances, wrapping modulo the frame count.

use vstd::prelude::*;

verus! {

#[derive(Clone, Copy, PartialEq, Eq, Structural, Debug)]
pub struct Anim {
    pub interval: u32,
    pub frame: usize,
}

/// Validity of an animation state for a type whose threshold is `speed` and
/// whose sprite sequence has `count` frames.
pub open spec fn anim_inv(a: Anim, speed: u32, count: usize) -> bool {
    &&& a.interval <= speed
    &&& a.frame < count
}

/// The animation state after one update call.
pub open spec fn anim_stepped(a: Anim, speed: u32, count: usize) -> Anim {
    if a.interval + 1 > speed {
        Anim { interval: 0, frame: if a.frame + 1 == count { 0 } else { (a.frame + 1) as usize } }
    } else {
        Anim { interval: (a.interval + 1) as u32, frame: a.frame }
    }
}

/// One update keeps an animation state valid.
pub proof fn lemma_anim_stepped_inv(a: Anim, speed: u32, count: usize)
    requires
        anim_inv(a, speed, count),
    ensures
        anim_inv(anim_stepped(a, speed, count), speed, count),
{
}

impl Anim {
    pub fn new() -> (a: Anim)
        ensures
            a == (Anim { interval: 0u32, frame: 0usize }),
    {
        Anim { interval: 0, frame: 0 }
    }

    /// One animation update: advances the counter, and past the threshold
    /// resets it and moves to the next frame, wrapping around.
    pub fn step(&mut self, speed: u32, count: usize)
        requires
            anim_inv(*old(self), speed, count),
            speed < u32::MAX,
        ensures
            *final(self) == anim_stepped(*old(self), speed, count),
            anim_inv(*final(self), speed, count),
    {
        self.interval = self.interval + 1;
        if self.interval > speed {
            self.interval = 0;
            self.frame = self.frame + 1;
            if self.frame == count {
                self.frame = 0;
            }
        }
    }
}

} // verus!
