//! The game session: score, high score, lives, mission number and the
//! formation speed, together with the scoring and difficulty arithmetic.
//! All additions to these counters saturate instead of wrapping.

use vstd::prelude::*;

verus! {

/// Points for shooting down a bomb.
pub const SCORE_BOMB: u64 = 5;

/// Points for shooting an enemy.
pub const SCORE_ENEMY: u64 = 10;

/// Points for hitting the saucer.
pub const SCORE_UFO: u64 = 100;

/// The first bonus-life threshold; later thresholds step by the same amount.
pub const BONUS_STEP: u64 = 1_000;

/// Lives at the start of a new game.
pub const START_LIVES: u32 = 3;

/// Formation speed on the first mission, in milli-pixels per frame.
pub const ENEMY_INIT_SPEED: u64 = 400;

/// Speed gained per mission and per formation pull-down.
pub const ENEMY_SPEED_STEP: u64 = 200;

/// Hard ceiling on the formation speed, so that positions stay in range.
/// It is far beyond anything reachable in play (one hundred thousand pixels
/// per frame).
pub const ENEMY_SPEED_CAP: u64 = 100_000_000;

#[derive(Clone, Copy, PartialEq, Eq, Structural, Debug)]
pub struct Game {
    pub score: u64,
    pub hi_score: u64,
    pub lives: u32,
    pub mission: u32,
    pub enemy_speed: u64,
}

/// A score total after earning `pts` more points, saturating at the top of
/// the counter.
pub open spec fn score_plus(s: u64, pts: int) -> u64 {
    if s + pts > u64::MAX {
        u64::MAX
    } else {
        (s + pts) as u64
    }
}

/// The formation speed for a given mission number: the base speed plus one
/// step per mission, capped.
pub open spec fn mission_speed(mission: u32) -> u64 {
    if ENEMY_INIT_SPEED + ENEMY_SPEED_STEP * mission <= ENEMY_SPEED_CAP {
        (ENEMY_INIT_SPEED + ENEMY_SPEED_STEP * mission) as u64
    } else {
        ENEMY_SPEED_CAP
    }
}

/// The formation speed after one pull-down: one step faster, capped.
pub open spec fn bumped_speed(s: u64) -> u64 {
    if s + ENEMY_SPEED_STEP <= ENEMY_SPEED_CAP {
        (s + ENEMY_SPEED_STEP) as u64
    } else {
        ENEMY_SPEED_CAP
    }
}

/// One saturating step of scoring: earning `pts` once more on top of a
/// total that already reflects `c` hits is the same as earning `pts` for
/// `c + 1` hits.
pub proof fn lemma_score_step(s0: u64, pts: u64, c: int)
    requires
        c >= 0,
    ensures
        ({
            let before = score_plus(s0, pts * c);
            let stepped = if before + pts > u64::MAX {
                u64::MAX
            } else {
                (before + pts) as u64
            };
            stepped == score_plus(s0, pts * (c + 1))
        }),
{
    assert(pts * c >= 0) by (nonlinear_arith)
        requires
            c >= 0,
    ;
    assert(pts * (c + 1) == pts * c + pts) by (nonlinear_arith);
}

impl Game {
    /// A blank session; the intro screen fills in the starting values.
    pub fn new() -> (g: Game)
        ensures
            g == (Game { score: 0u64, hi_score: 0u64, lives: 0u32, mission: 0u32, enemy_speed: 0u64 }),
    {
        Game { score: 0, hi_score: 0, lives: 0, mission: 0, enemy_speed: 0 }
    }
}

/// The formation speed for a mission, computed exactly as `mission_speed`.
pub fn speed_for_mission(mission: u32) -> (s: u64)
    ensures
        s == mission_speed(mission),
{
    let raw: u64 = ENEMY_INIT_SPEED + ENEMY_SPEED_STEP * (mission as u64);
    if raw <= ENEMY_SPEED_CAP {
        raw
    } else {
        ENEMY_SPEED_CAP
    }
}

/// End-of-frame score housekeeping. The high score is raised to the score
/// whenever the score passes it, so the high score never decreases and is
/// never below the score. Crossing the pending bonus threshold grants
/// exactly one extra life and moves the threshold up one step, so the same
/// threshold is never granted twice.
pub fn update_hi_score_and_bonus(g: &mut Game, next_bonus_at: &mut u64)
    ensures
        final(g).score == old(g).score,
        final(g).mission == old(g).mission,
        final(g).enemy_speed == old(g).enemy_speed,
        final(g).hi_score == (if old(g).score > old(g).hi_score {
            old(g).score
        } else {
            old(g).hi_score
        }),
        final(g).hi_score >= old(g).hi_score,
        final(g).hi_score >= final(g).score,
        final(g).lives == (if old(g).score > *old(next_bonus_at) {
            if old(g).lives < u32::MAX {
                (old(g).lives + 1) as u32
            } else {
                u32::MAX
            }
        } else {
            old(g).lives
        }),
        *final(next_bonus_at) == (if old(g).score > *old(next_bonus_at) {
            score_plus(*old(next_bonus_at), BONUS_STEP as int)
        } else {
            *old(next_bonus_at)
        }),
{
    if g.score > g.hi_score {
        g.hi_score = g.score;
    }
    if g.score > *next_bonus_at {
        g.lives = g.lives.saturating_add(1);
        *next_bonus_at = next_bonus_at.saturating_add(BONUS_STEP);
    }
}

/// The formation speed after a pull-down, computed exactly as `bumped_speed`.
pub fn bump_speed(s: u64) -> (r: u64)
    requires
        s <= ENEMY_SPEED_CAP,
    ensures
        r == bumped_speed(s),
{
    if s + ENEMY_SPEED_STEP <= ENEMY_SPEED_CAP {
        s + ENEMY_SPEED_STEP
    } else {
        ENEMY_SPEED_CAP
    }
}

} // verus!
