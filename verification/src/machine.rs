//! The game world and its per-frame state machine: one `World` owns the
//! session, the player, every entity collection, the formation direction,
//! the spawn timers and the pending bonus threshold. Each frame runs the
//! active state's handler and then the garbage-collection pass.

use vstd::prelude::*;
use crate::{Dir, GameState, Input, flipped};
use crate::anim::{anim_inv, anim_stepped, lemma_anim_stepped_inv};
use crate::block::{Block, block_inv};
use crate::bomb::{Bomb, BombKind, bomb_inv, bomb_rect, BOMB_ANIMATION_SPEED, BOMB_FRAME_COUNT};
use crate::bullet::{Bullet, bullet_after, bullet_inv, bullet_rect, BULLET_OFFSET_X};
use crate::enemy::{
    Enemy, enemy_anim_inv, ENEMY_ANIMATION_SPEED, ENEMY_FRAME_COUNT, ENEMY_PULL_DOWN,
};
use crate::anim::Anim;
use crate::game::{
    Game, mission_speed, bumped_speed, score_plus, update_hi_score_and_bonus, BONUS_STEP,
    ENEMY_INIT_SPEED, ENEMY_SPEED_CAP, SCORE_BOMB, SCORE_ENEMY, SCORE_UFO, START_LIVES,
};
use crate::gc::{
    count_matching, retained, lemma_retained_id, lemma_retained_live, sweep_blocks, sweep_bombs,
    sweep_bullets, sweep_enemies, sweep_ufos,
};
use crate::geom::MAX_COORD;
use crate::phases::{
    any_block_hits_bullet, any_bomb_hits_bullet, any_bomb_hits_player, any_enemy_danger,
    any_enemy_hits_bullet, block_frame_result, bomb_block_result, bomb_bullet_trade,
    bomb_frame_result, bombs_phase, blocks_phase, bullet_phase, bullet0, enemies_phase,
    enemy_bullet_trade, enemy_frame_result, fire_phase, formation_crossed,
    pulldown_phase, step_enemy_anims, ufo_frame_result, ufo_hits_bullet, ufo_phase,
};
use crate::player::{Player, player_inv, player_moved_x, PLAYER_START_X, PLAYER_Y};
use crate::rng::rand_range;
use crate::spawn::{
    make_blocks_array, make_enemies_array, blocks_layout_ok, enemies_layout_ok,
    lemma_layouts_in_bounds,
};
use crate::ufo::{Ufo, ufo_anim_inv, ufo_spawn_x, UFO_LEFT_SPAWN_X, UFO_RIGHT_SPAWN_X, UFO_Y};

verus! {

/// A new saucer appears when this much time has passed since the last one.
pub const UFO_SPAWN_GAP_MS: u64 = 7_000;

/// Hard floor on the time between bombs.
pub const BOMB_MIN_GAP_MS: u64 = 600;

/// Largest random extra delay added on top of the bomb floor.
pub const BOMB_MAX_EXTRA_MS: u64 = 40_000;

/// A bomb spawns this far right of its enemy's position.
pub const BOMB_OFFSET_X: i64 = 25_000;

/// A bomb spawns this far below its enemy's position.
pub const BOMB_OFFSET_Y: i64 = 36_000;

/// No live bomb sits below this line between frames: bombs spawn above it
/// and self-destroy below the floor.
pub const MAX_LIVE_BOMB_Y: i64 = 510_000;

/// No live enemy sits below this line between frames.
pub const ENEMY_Y_LIMIT: i64 = 470_000;

/// Outside the game-over state, no live enemy sits below this line: one more
/// pull-down still keeps the formation above `ENEMY_Y_LIMIT`.
pub const ENEMY_Y_ACTIVE_LIMIT: i64 = 460_000;

/// The random draws one playing frame consumes. The deterministic step
/// takes them as arguments; `World::frame` draws them through `rand`.
#[derive(Clone, Copy, PartialEq, Eq, Structural, Debug)]
pub struct Draws {
    /// Side the next saucer enters from.
    pub ufo_side: Dir,
    /// Extra delay, beyond the floor, before the next bomb drops.
    pub bomb_delay_ms: u64,
    /// Sprite kind of the next bomb.
    pub bomb_kind: BombKind,
    /// Which live enemy drops the next bomb.
    pub bomb_enemy_index: usize,
}

pub struct World {
    pub state: GameState,
    pub game: Game,
    pub player: Player,
    pub enemies: Vec<Enemy>,
    pub blocks: Vec<Block>,
    pub bullets: Vec<Bullet>,
    pub bombs: Vec<Bomb>,
    pub ufos: Vec<Ufo>,
    pub enemy_direction: Dir,
    pub bomb_last_time: u64,
    pub ufo_last_time: u64,
    pub next_bonus_at: u64,
}

pub open spec fn wf_bullets(w: World) -> bool {
    &&& w.bullets@.len() <= 1
    &&& forall|i: int|
        0 <= i < w.bullets@.len() ==> !(#[trigger] w.bullets@[i]).destroyed && -2 * MAX_COORD
            <= w.bullets@[i].x <= 2 * MAX_COORD && 0 <= w.bullets@[i].y <= MAX_COORD
}

pub open spec fn wf_bombs(w: World) -> bool {
    forall|i: int|
        0 <= i < w.bombs@.len() ==> !(#[trigger] w.bombs@[i]).destroyed && bomb_inv(w.bombs@[i])
            && w.bombs@[i].y <= MAX_LIVE_BOMB_Y
}

pub open spec fn wf_enemies(w: World) -> bool {
    forall|i: int|
        0 <= i < w.enemies@.len() ==> !(#[trigger] w.enemies@[i]).destroyed && enemy_anim_inv(
            w.enemies@[i],
        ) && -MAX_COORD <= w.enemies@[i].x <= MAX_COORD && -MAX_COORD <= w.enemies@[i].y
            && w.enemies@[i].y <= ENEMY_Y_LIMIT && (w.state != GameState::GameOver
            ==> w.enemies@[i].y <= ENEMY_Y_ACTIVE_LIMIT)
}

pub open spec fn wf_ufos(w: World) -> bool {
    forall|i: int|
        0 <= i < w.ufos@.len() ==> !(#[trigger] w.ufos@[i]).destroyed && ufo_anim_inv(w.ufos@[i])
            && UFO_LEFT_SPAWN_X <= w.ufos@[i].x <= UFO_RIGHT_SPAWN_X && w.ufos@[i].y == UFO_Y
}

pub open spec fn wf_blocks(w: World) -> bool {
    forall|j: int|
        0 <= j < w.blocks@.len() ==> !(#[trigger] w.blocks@[j]).destroyed && block_inv(
            w.blocks@[j],
        )
}

/// Well-formedness of a world between frames: every entity is live and in
/// range, at most one bullet exists, the formation speed is capped, the high
/// score is never below the score, and a failed level still has the life it
/// is about to spend.
pub open spec fn wf(w: World) -> bool {
    &&& wf_bullets(w)
    &&& wf_bombs(w)
    &&& wf_enemies(w)
    &&& wf_ufos(w)
    &&& wf_blocks(w)
    &&& player_inv(w.player)
    &&& w.game.enemy_speed <= ENEMY_SPEED_CAP
    &&& w.game.hi_score >= w.game.score
    &&& (w.state == GameState::LevelFail ==> w.game.lives >= 1)
}

impl World {
    /// A fresh world on the intro screen: a blank session, the player at the
    /// start position with the given sprite size (milli-pixels), the fixed
    /// layouts, no projectiles, and both spawn timers set to `now`.
    pub fn new(now: u64, player_w: i64, player_h: i64) -> (w: World)
        requires
            0 <= player_w <= MAX_COORD,
            0 <= player_h <= MAX_COORD,
        ensures
            wf(w),
            w.state == GameState::Intro,
            w.game == (Game {
                score: 0u64,
                hi_score: 0u64,
                lives: 0u32,
                mission: 0u32,
                enemy_speed: 0u64,
            }),
            w.player == (Player { x: PLAYER_START_X, y: PLAYER_Y, w: player_w, h: player_h }),
            enemies_layout_ok(w.enemies@),
            blocks_layout_ok(w.blocks@),
            w.bullets@.len() == 0,
            w.bombs@.len() == 0,
            w.ufos@.len() == 0,
            w.enemy_direction == Dir::Left,
            w.bomb_last_time == now,
            w.ufo_last_time == now,
            w.next_bonus_at == BONUS_STEP,
    {
        let w = World {
            state: GameState::Intro,
            game: Game::new(),
            player: Player::new(player_w, player_h),
            enemies: make_enemies_array(),
            blocks: make_blocks_array(),
            bullets: Vec::new(),
            bombs: Vec::new(),
            ufos: Vec::new(),
            enemy_direction: Dir::Left,
            bomb_last_time: now,
            ufo_last_time: now,
            next_bonus_at: BONUS_STEP,
        };
        proof {
            lemma_layouts_in_bounds(w.enemies@, w.blocks@);
        }
        w
    }
}

/// The garbage-collection pass: independently for each collection, every
/// entity flagged destroyed is removed, survivors keeping their order.
/// Nothing else of the world changes.
pub fn gc_pass(w: &mut World)
    ensures
        final(w).bullets@ == retained(old(w).bullets@, |b: Bullet| !b.destroyed),
        final(w).bombs@ == retained(old(w).bombs@, |b: Bomb| !b.destroyed),
        final(w).enemies@ == retained(old(w).enemies@, |e: Enemy| !e.destroyed),
        final(w).blocks@ == retained(old(w).blocks@, |b: Block| !b.destroyed),
        final(w).ufos@ == retained(old(w).ufos@, |u: Ufo| !u.destroyed),
        final(w).state == old(w).state,
        final(w).game == old(w).game,
        final(w).player == old(w).player,
        final(w).enemy_direction == old(w).enemy_direction,
        final(w).bomb_last_time == old(w).bomb_last_time,
        final(w).ufo_last_time == old(w).ufo_last_time,
        final(w).next_bonus_at == old(w).next_bonus_at,
{
    sweep_enemies(&mut w.enemies);
    sweep_blocks(&mut w.blocks);
    sweep_bullets(&mut w.bullets);
    sweep_bombs(&mut w.bombs);
    sweep_ufos(&mut w.ufos);
}

/// Intro screen: every frame resets the session to a fresh game (the high
/// score is kept); confirming starts the first level.
pub fn intro_step(w: &mut World, input: Input)
    requires
        wf(*old(w)),
        old(w).state == GameState::Intro,
    ensures
        wf(*final(w)),
        final(w).state == (if input.confirm {
            GameState::InitLevel
        } else {
            GameState::Intro
        }),
        final(w).game.score == 0,
        final(w).game.hi_score == old(w).game.hi_score,
        final(w).game.lives == START_LIVES,
        final(w).game.mission == 1,
        final(w).game.enemy_speed == ENEMY_INIT_SPEED,
        final(w).player == old(w).player,
        final(w).enemies@ == old(w).enemies@,
        final(w).blocks@ == old(w).blocks@,
        final(w).bullets@ == old(w).bullets@,
        final(w).bombs@ == old(w).bombs@,
        final(w).ufos@ == old(w).ufos@,
        final(w).enemy_direction == old(w).enemy_direction,
        final(w).bomb_last_time == old(w).bomb_last_time,
        final(w).ufo_last_time == old(w).ufo_last_time,
        final(w).next_bonus_at == old(w).next_bonus_at,
{
    w.game.score = 0;
    w.game.lives = START_LIVES;
    w.game.mission = 1;
    w.game.enemy_speed = ENEMY_INIT_SPEED;
    if input.confirm {
        w.state = GameState::InitLevel;
    }
}

/// Level banner screen: every frame resets the bomb timer and the player's
/// position and animates the waiting formation; confirming enters play.
pub fn init_level_step(w: &mut World, input: Input, now: u64)
    requires
        wf(*old(w)),
        old(w).state == GameState::InitLevel,
    ensures
        wf(*final(w)),
        final(w).state == (if input.confirm {
            GameState::Game
        } else {
            GameState::InitLevel
        }),
        final(w).bomb_last_time == now,
        final(w).player == (Player { x: PLAYER_START_X, ..old(w).player }),
        final(w).enemies@.len() == old(w).enemies@.len(),
        forall|i: int|
            0 <= i < old(w).enemies@.len() ==> #[trigger] final(w).enemies@[i] == (Enemy {
                anim: anim_stepped(
                    old(w).enemies@[i].anim,
                    ENEMY_ANIMATION_SPEED,
                    ENEMY_FRAME_COUNT,
                ),
                ..old(w).enemies@[i]
            }),
        final(w).game == old(w).game,
        final(w).blocks@ == old(w).blocks@,
        final(w).bullets@ == old(w).bullets@,
        final(w).bombs@ == old(w).bombs@,
        final(w).ufos@ == old(w).ufos@,
        final(w).enemy_direction == old(w).enemy_direction,
        final(w).ufo_last_time == old(w).ufo_last_time,
        final(w).next_bonus_at == old(w).next_bonus_at,
{
    w.bomb_last_time = now;
    w.player.x = PLAYER_START_X;
    step_enemy_anims(&mut w.enemies);
    if input.confirm {
        w.state = GameState::Game;
    }
    proof {
        assert forall|i: int| 0 <= i < w.enemies@.len() implies enemy_anim_inv(
            #[trigger] w.enemies@[i],
        ) by {
            lemma_anim_stepped_inv(
                old(w).enemies@[i].anim,
                ENEMY_ANIMATION_SPEED,
                ENEMY_FRAME_COUNT,
            );
        }
    }
}

/// Mission-fail screen: the frozen formation animates; confirming spends a
/// life, clears every projectile and the saucer, resets the player's
/// position and resumes play.
pub fn level_fail_step(w: &mut World, input: Input)
    requires
        wf(*old(w)),
        old(w).state == GameState::LevelFail,
    ensures
        wf(*final(w)),
        final(w).enemies@.len() == old(w).enemies@.len(),
        forall|i: int|
            0 <= i < old(w).enemies@.len() ==> #[trigger] final(w).enemies@[i] == (Enemy {
                anim: anim_stepped(
                    old(w).enemies@[i].anim,
                    ENEMY_ANIMATION_SPEED,
                    ENEMY_FRAME_COUNT,
                ),
                ..old(w).enemies@[i]
            }),
        input.confirm ==> {
            &&& final(w).state == GameState::Game
            &&& final(w).game.lives == old(w).game.lives - 1
            &&& final(w).player == (Player { x: PLAYER_START_X, ..old(w).player })
            &&& final(w).bullets@.len() == 0
            &&& final(w).bombs@.len() == 0
            &&& final(w).ufos@.len() == 0
        },
        !input.confirm ==> {
            &&& final(w).state == GameState::LevelFail
            &&& final(w).game == old(w).game
            &&& final(w).player == old(w).player
            &&& final(w).bullets@ == old(w).bullets@
            &&& final(w).bombs@ == old(w).bombs@
            &&& final(w).ufos@ == old(w).ufos@
        },
        final(w).game.score == old(w).game.score,
        final(w).game.hi_score == old(w).game.hi_score,
        final(w).game.mission == old(w).game.mission,
        final(w).game.enemy_speed == old(w).game.enemy_speed,
        final(w).blocks@ == old(w).blocks@,
        final(w).enemy_direction == old(w).enemy_direction,
        final(w).bomb_last_time == old(w).bomb_last_time,
        final(w).ufo_last_time == old(w).ufo_last_time,
        final(w).next_bonus_at == old(w).next_bonus_at,
{
    step_enemy_anims(&mut w.enemies);
    if input.confirm {
        w.game.lives = w.game.lives - 1;
        w.player.x = PLAYER_START_X;
        w.bullets.clear();
        w.bombs.clear();
        w.ufos.clear();
        w.state = GameState::Game;
    }
    proof {
        assert forall|i: int| 0 <= i < w.enemies@.len() implies enemy_anim_inv(
            #[trigger] w.enemies@[i],
        ) by {
            lemma_anim_stepped_inv(
                old(w).enemies@[i].anim,
                ENEMY_ANIMATION_SPEED,
                ENEMY_FRAME_COUNT,
            );
        }
    }
}

/// Pause state: present but never entered; a frame in it changes nothing.
pub fn paused_step(w: &mut World)
    requires
        wf(*old(w)),
        old(w).state == GameState::Paused,
    ensures
        wf(*final(w)),
        *final(w) == *old(w),
{
}

/// Mission-complete screen: confirming clears the transient entities,
/// regenerates the formation and the blocks, advances the mission, scales
/// the formation speed up, resets the player's position and shows the next
/// level banner.
pub fn level_completed_step(w: &mut World, input: Input)
    requires
        wf(*old(w)),
        old(w).state == GameState::LevelCompleted,
    ensures
        wf(*final(w)),
        input.confirm ==> {
            &&& final(w).state == GameState::InitLevel
            &&& final(w).player == (Player { x: PLAYER_START_X, ..old(w).player })
            &&& final(w).bullets@.len() == 0
            &&& final(w).bombs@.len() == 0
            &&& final(w).ufos@.len() == 0
            &&& enemies_layout_ok(final(w).enemies@)
            &&& blocks_layout_ok(final(w).blocks@)
            &&& final(w).game.mission == (if old(w).game.mission < u32::MAX {
                (old(w).game.mission + 1) as u32
            } else {
                u32::MAX
            })
            &&& final(w).game.enemy_speed == mission_speed(final(w).game.mission)
        },
        !input.confirm ==> *final(w) == *old(w),
        final(w).game.score == old(w).game.score,
        final(w).game.hi_score == old(w).game.hi_score,
        final(w).game.lives == old(w).game.lives,
        final(w).enemy_direction == old(w).enemy_direction,
        final(w).bomb_last_time == old(w).bomb_last_time,
        final(w).ufo_last_time == old(w).ufo_last_time,
        final(w).next_bonus_at == old(w).next_bonus_at,
{
    if input.confirm {
        w.player.x = PLAYER_START_X;
        w.bullets.clear();
        w.bombs.clear();
        w.enemies.clear();
        w.ufos.clear();
        w.enemies = make_enemies_array();
        w.blocks.clear();
        w.blocks = make_blocks_array();
        w.game.mission = w.game.mission.saturating_add(1);
        w.game.enemy_speed = crate::game::speed_for_mission(w.game.mission);
        w.state = GameState::InitLevel;
        proof {
            lemma_layouts_in_bounds(w.enemies@, w.blocks@);
        }
    }
}

/// Game-over screen: the frozen scene animates; confirming starts a fresh
/// game — session reset, layouts regenerated — on the level banner. The
/// high score survives.
pub fn game_over_step(w: &mut World, input: Input)
    requires
        wf(*old(w)),
        old(w).state == GameState::GameOver,
    ensures
        wf(*final(w)),
        input.confirm ==> {
            &&& final(w).state == GameState::InitLevel
            &&& final(w).bullets@.len() == 0
            &&& final(w).bombs@.len() == 0
            &&& final(w).ufos@.len() == 0
            &&& enemies_layout_ok(final(w).enemies@)
            &&& blocks_layout_ok(final(w).blocks@)
            &&& final(w).game.score == 0
            &&& final(w).game.lives == START_LIVES
            &&& final(w).game.mission == 1
            &&& final(w).game.enemy_speed == ENEMY_INIT_SPEED
        },
        !input.confirm ==> {
            &&& final(w).state == GameState::GameOver
            &&& final(w).game == old(w).game
            &&& final(w).blocks@ == old(w).blocks@
            &&& final(w).bullets@ == old(w).bullets@
            &&& final(w).bombs@ == old(w).bombs@
            &&& final(w).ufos@ == old(w).ufos@
            &&& final(w).enemies@.len() == old(w).enemies@.len()
            &&& forall|i: int|
                0 <= i < old(w).enemies@.len() ==> #[trigger] final(w).enemies@[i] == (Enemy {
                    anim: anim_stepped(
                        old(w).enemies@[i].anim,
                        ENEMY_ANIMATION_SPEED,
                        ENEMY_FRAME_COUNT,
                    ),
                    ..old(w).enemies@[i]
                })
        },
        final(w).game.hi_score == old(w).game.hi_score,
        final(w).player == old(w).player,
        final(w).enemy_direction == old(w).enemy_direction,
        final(w).bomb_last_time == old(w).bomb_last_time,
        final(w).ufo_last_time == old(w).ufo_last_time,
        final(w).next_bonus_at == old(w).next_bonus_at,
{
    step_enemy_anims(&mut w.enemies);
    proof {
        assert forall|i: int| 0 <= i < w.enemies@.len() implies enemy_anim_inv(
            #[trigger] w.enemies@[i],
        ) by {
            lemma_anim_stepped_inv(
                old(w).enemies@[i].anim,
                ENEMY_ANIMATION_SPEED,
                ENEMY_FRAME_COUNT,
            );
        }
    }
    if input.confirm {
        w.bullets.clear();
        w.bombs.clear();
        w.ufos.clear();
        w.blocks.clear();
        w.blocks = make_blocks_array();
        w.enemies.clear();
        w.enemies = make_enemies_array();
        w.game.score = 0;
        w.game.lives = START_LIVES;
        w.game.mission = 1;
        w.game.enemy_speed = ENEMY_INIT_SPEED;
        w.state = GameState::InitLevel;
        proof {
            lemma_layouts_in_bounds(w.enemies@, w.blocks@);
        }
    }
}

/// Whether a saucer spawns this frame: the fixed interval has passed.
pub open spec fn ufo_spawns(w: World, now: u64) -> bool {
    now - w.ufo_last_time > UFO_SPAWN_GAP_MS
}

/// Whether a bomb spawns this frame: the floor has passed, an enemy is
/// alive, and the floor plus the drawn extra delay has passed too.
pub open spec fn bomb_spawns(w: World, now: u64, delay: u64) -> bool {
    &&& now - w.bomb_last_time > BOMB_MIN_GAP_MS
    &&& w.enemies@.len() > 0
    &&& now - w.bomb_last_time > BOMB_MIN_GAP_MS + delay
}

/// Whether the formation crossed a bound this frame.
pub open spec fn crossed_of(w: World) -> bool {
    formation_crossed(w.enemies@, w.enemy_direction, w.game.enemy_speed)
}

/// The state a playing frame ends in: with the formation already cleared the
/// mission completes; an enemy reaching the player line or touching the
/// (moved) player ends the game; a bomb hitting the player fails the level
/// while lives remain, else ends the game; otherwise play continues. The
/// outcome does not depend on the frame's random draws.
pub open spec fn game_step_state(w: World, input: Input, dt: u32) -> GameState {
    let moved = Player { x: player_moved_x(w.player.x, input.left, input.right) as i64, ..w.player };
    if w.enemies@.len() == 0 {
        GameState::LevelCompleted
    } else if any_enemy_danger(w.enemies@, w.enemy_direction, w.game.enemy_speed, moved) {
        GameState::GameOver
    } else if any_bomb_hits_player(w.bombs@, dt, w.player) {
        if w.game.lives > 0 {
            GameState::LevelFail
        } else {
            GameState::GameOver
        }
    } else {
        GameState::Game
    }
}

/// The value a fresh saucer carries when it enters from `side`.
pub open spec fn fresh_ufo(side: Dir) -> Ufo {
    Ufo {
        x: ufo_spawn_x(side),
        y: UFO_Y,
        side,
        anim: Anim { interval: 0u32, frame: 0usize },
        destroyed: false,
    }
}

/// The bomb a spawning frame appends, before block collisions: at the drawn
/// enemy's frame-entry position plus the fixed offset, of the drawn kind.
pub open spec fn fresh_bomb(w0: World, draws: Draws) -> Bomb {
    Bomb {
        x: (w0.enemies@[draws.bomb_enemy_index as int].x + BOMB_OFFSET_X) as i64,
        y: (w0.enemies@[draws.bomb_enemy_index as int].y + BOMB_OFFSET_Y) as i64,
        kind: draws.bomb_kind,
        anim: Anim { interval: 0u32, frame: 0usize },
        destroyed: false,
    }
}

/// The bullet the fire phase would append: just above the player's nose, at
/// the player's frame-entry position.
pub open spec fn fresh_bullet(w0: World) -> Bullet {
    Bullet { x: (w0.player.x + BULLET_OFFSET_X) as i64, y: w0.player.y, destroyed: false }
}

/// The bullet as the saucer phase sees it: the frame-entry bullet, flagged
/// if any bomb traded with it.
pub open spec fn bullet_seen_by_ufo(w0: World, dt: u32) -> Option<Bullet> {
    match bullet0(w0.bullets@) {
        Some(b) => Some(
            Bullet {
                destroyed: b.destroyed || any_bomb_hits_bullet(w0.bombs@, dt, bullet0(w0.bullets@)),
                ..b
            },
        ),
        None => None,
    }
}

/// The saucer collection after the spawn check, before index 0 is processed.
pub open spec fn ufos_mid(w0: World, now: u64, draws: Draws) -> Seq<Ufo> {
    if ufo_spawns(w0, now) {
        w0.ufos@.push(fresh_ufo(draws.ufo_side))
    } else {
        w0.ufos@
    }
}

/// Whether the processed saucer trades with the bullet this frame.
pub open spec fn ufo_trades_with_bullet(w0: World, now: u64, dt: u32, draws: Draws) -> bool {
    ufos_mid(w0, now, draws).len() > 0 && ufo_hits_bullet(
        ufos_mid(w0, now, draws)[0],
        bullet_seen_by_ufo(w0, dt),
    )
}

/// Each saucer at the end of a playing frame, before collection: index 0
/// animated, flown and possibly traded; later ones untouched.
pub open spec fn ufo_end(w0: World, now: u64, dt: u32, draws: Draws, i: int) -> Ufo {
    if i == 0 {
        ufo_frame_result(ufos_mid(w0, now, draws)[0], bullet_seen_by_ufo(w0, dt))
    } else {
        ufos_mid(w0, now, draws)[i]
    }
}

/// The bullet after the saucer phase: additionally flagged on a saucer trade.
pub open spec fn bullet_after_saucer(w0: World, now: u64, dt: u32, draws: Draws) -> Option<Bullet> {
    match bullet_seen_by_ufo(w0, dt) {
        Some(b) => Some(
            Bullet { destroyed: b.destroyed || ufo_trades_with_bullet(w0, now, dt, draws), ..b },
        ),
        None => None,
    }
}

/// The bullet as the formation phase sees it: flagged by bombs and the
/// saucer, a fresh one fired if none existed and the key is held, then
/// climbed one step.
pub open spec fn bullet_before_formation(
    w0: World,
    input: Input,
    now: u64,
    dt: u32,
    draws: Draws,
) -> Option<Bullet> {
    match bullet_after_saucer(w0, now, dt, draws) {
        Some(b) => Some(bullet_after(b, dt)),
        None => if input.shoot {
            Some(bullet_after(fresh_bullet(w0), dt))
        } else {
            None
        },
    }
}

/// Each formation member after the formation phase (moved, animated,
/// possibly shot), before the pull-down.
pub open spec fn formation_result(
    w0: World,
    input: Input,
    now: u64,
    dt: u32,
    draws: Draws,
) -> Seq<Enemy> {
    Seq::new(
        w0.enemies@.len(),
        |i: int|
            enemy_frame_result(
                w0.enemies@[i],
                w0.enemy_direction,
                w0.game.enemy_speed,
                bullet_before_formation(w0, input, now, dt, draws),
            ),
    )
}

/// Each formation member at the end of a playing frame, before collection:
/// the formation result, stepped down once if any member crossed a bound.
pub open spec fn enemy_end(w0: World, input: Input, now: u64, dt: u32, draws: Draws, i: int) -> Enemy {
    let er = formation_result(w0, input, now, dt, draws)[i];
    if crossed_of(w0) {
        Enemy { y: (er.y + ENEMY_PULL_DOWN) as i64, ..er }
    } else {
        er
    }
}

/// The bomb collection after movement, the bomb collisions and the spawn
/// check, as the block phase sees it.
pub open spec fn bombs_before_blocks(w0: World, now: u64, dt: u32, draws: Draws) -> Seq<Bomb> {
    let moved = Seq::new(
        w0.bombs@.len(),
        |i: int| bomb_frame_result(w0.bombs@[i], dt, w0.player, bullet0(w0.bullets@)),
    );
    if bomb_spawns(w0, now, draws.bomb_delay_ms) {
        moved.push(fresh_bomb(w0, draws))
    } else {
        moved
    }
}

/// The bullet after the formation phase: additionally flagged if it shot a
/// member.
pub open spec fn bullet_after_formation(
    w0: World,
    input: Input,
    now: u64,
    dt: u32,
    draws: Draws,
) -> Option<Bullet> {
    match bullet_before_formation(w0, input, now, dt, draws) {
        Some(b) => Some(
            Bullet {
                destroyed: b.destroyed || any_enemy_hits_bullet(
                    w0.enemies@,
                    w0.enemy_direction,
                    w0.game.enemy_speed,
                    bullet_before_formation(w0, input, now, dt, draws),
                ),
                ..b
            },
        ),
        None => None,
    }
}

/// The bullet at the end of a playing frame, before collection: additionally
/// flagged if it hit a block.
pub open spec fn bullet_end(w0: World, input: Input, now: u64, dt: u32, draws: Draws) -> Option<
    Bullet,
> {
    match bullet_after_formation(w0, input, now, dt, draws) {
        Some(b) => Some(
            Bullet {
                destroyed: b.destroyed || any_block_hits_bullet(
                    w0.blocks@,
                    bullet_after_formation(w0, input, now, dt, draws),
                ),
                ..b
            },
        ),
        None => None,
    }
}

/// The score at the end of a playing frame: the bomb trades, then a saucer
/// trade, then the formation kills, each addition saturating.
pub open spec fn score_end(w0: World, input: Input, now: u64, dt: u32, draws: Draws) -> u64 {
    let s1 = score_plus(
        w0.game.score,
        SCORE_BOMB * count_matching(w0.bombs@, bomb_bullet_trade(dt, bullet0(w0.bullets@))),
    );
    let s2 = score_plus(
        s1,
        if ufo_trades_with_bullet(w0, now, dt, draws) {
            SCORE_UFO as int
        } else {
            0int
        },
    );
    score_plus(
        s2,
        SCORE_ENEMY * count_matching(
            w0.enemies@,
            enemy_bullet_trade(
                w0.enemy_direction,
                w0.game.enemy_speed,
                bullet_before_formation(w0, input, now, dt, draws),
            ),
        ),
    )
}

/// The projectile half of a playing frame, in frame order: bombs fall,
/// animate and collide with the player and the bullet; the saucer timer may
/// spawn a saucer at the drawn side and the saucer at index 0 flies and may
/// trade with the bullet; the bomb timer, its drawn extra delay and a live
/// formation may drop a bomb of the drawn kind from the drawn enemy; the
/// fire key spawns a bullet while none exists; the player moves; the bullet
/// climbs. The formation, the blocks, the pull-down and the score
/// housekeeping follow in `game_step`.
#[verifier::rlimit(100)]
fn projectile_phases(w: &mut World, input: Input, now: u64, dt: u32, draws: Draws)
    requires
        wf(*old(w)),
        now >= old(w).bomb_last_time,
        now >= old(w).ufo_last_time,
        draws.bomb_delay_ms <= BOMB_MAX_EXTRA_MS,
        old(w).enemies@.len() > 0 ==> draws.bomb_enemy_index < old(w).enemies@.len(),
    ensures
        final(w).state == (if any_bomb_hits_player(old(w).bombs@, dt, old(w).player) {
            if old(w).game.lives > 0 {
                GameState::LevelFail
            } else {
                GameState::GameOver
            }
        } else {
            old(w).state
        }),
        final(w).player == (Player {
            x: player_moved_x(old(w).player.x, input.left, input.right) as i64,
            ..old(w).player
        }),
        player_inv(final(w).player),
        final(w).enemies@ == old(w).enemies@,
        final(w).blocks@ == old(w).blocks@,
        final(w).enemy_direction == old(w).enemy_direction,
        final(w).next_bonus_at == old(w).next_bonus_at,
        final(w).game.hi_score == old(w).game.hi_score,
        final(w).game.lives == old(w).game.lives,
        final(w).game.mission == old(w).game.mission,
        final(w).game.enemy_speed == old(w).game.enemy_speed,
        final(w).game.score == score_plus(
            score_plus(
                old(w).game.score,
                SCORE_BOMB * count_matching(
                    old(w).bombs@,
                    bomb_bullet_trade(dt, bullet0(old(w).bullets@)),
                ),
            ),
            if ufo_trades_with_bullet(*old(w), now, dt, draws) {
                SCORE_UFO as int
            } else {
                0int
            },
        ),
        final(w).game.score >= old(w).game.score,
        final(w).bullets@.len() == (if old(w).bullets@.len() == 0 && input.shoot {
            1int
        } else {
            old(w).bullets@.len() as int
        }),
        bullet0(final(w).bullets@) == bullet_before_formation(*old(w), input, now, dt, draws),
        forall|i: int|
            0 <= i < final(w).bullets@.len() ==> -2 * MAX_COORD <= (#[trigger] final(w).bullets@[i]).x <= 2 * MAX_COORD && (final(w).bullets@[i].y < 0 ==> final(w).bullets@[i].destroyed) && (!final(w).bullets@[i].destroyed ==> 0 <= final(w).bullets@[i].y <= MAX_COORD) && crate::geom::rect_in_bounds(
                bullet_rect(final(w).bullets@[i]),
            ),
        final(w).bombs@ == bombs_before_blocks(*old(w), now, dt, draws),
        final(w).bombs@.len() == old(w).bombs@.len() + (if bomb_spawns(
            *old(w),
            now,
            draws.bomb_delay_ms,
        ) {
            1int
        } else {
            0int
        }),
        final(w).bomb_last_time == (if bomb_spawns(*old(w), now, draws.bomb_delay_ms) {
            now
        } else {
            old(w).bomb_last_time
        }),
        forall|i: int|
            0 <= i < final(w).bombs@.len() ==> anim_inv(
                (#[trigger] final(w).bombs@[i]).anim,
                BOMB_ANIMATION_SPEED,
                BOMB_FRAME_COUNT,
            ) && -2 * MAX_COORD <= final(w).bombs@[i].x <= 2 * MAX_COORD && -MAX_COORD <= final(w).bombs@[i].y && (!final(w).bombs@[i].destroyed ==> final(w).bombs@[i].y
                <= MAX_LIVE_BOMB_Y) && crate::geom::rect_in_bounds(bomb_rect(final(w).bombs@[i])),
        final(w).ufos@.len() == old(w).ufos@.len() + (if ufo_spawns(*old(w), now) {
            1int
        } else {
            0int
        }),
        final(w).ufo_last_time == (if ufo_spawns(*old(w), now) {
            now
        } else {
            old(w).ufo_last_time
        }),
        forall|i: int|
            0 <= i < final(w).ufos@.len() ==> #[trigger] final(w).ufos@[i] == ufo_end(
                *old(w),
                now,
                dt,
                draws,
                i,
            ),
        forall|i: int|
            0 <= i < final(w).ufos@.len() ==> ufo_anim_inv(#[trigger] final(w).ufos@[i]) && final(w).ufos@[i].y == UFO_Y && (!final(w).ufos@[i].destroyed ==> UFO_LEFT_SPAWN_X <= final(w).ufos@[i].x <= UFO_RIGHT_SPAWN_X),
{
    let ghost w0 = *old(w);
    // Bombs fall, animate, and collide with the player and the bullet.
    bombs_phase(&mut w.bombs, &mut w.bullets, &w.player, &mut w.game, &mut w.state, dt);
    let ghost bl1 = w.bullets@;
    let ghost sc1 = w.game.score;
    proof {
        assert(bullet0(bl1) == bullet_seen_by_ufo(w0, dt)) by {
            if w0.bullets@.len() > 0 {
                assert(bl1[0] == (Bullet {
                    destroyed: w0.bullets@[0].destroyed || any_bomb_hits_bullet(
                        w0.bombs@,
                        dt,
                        bullet0(w0.bullets@),
                    ),
                    ..w0.bullets@[0]
                }));
            }
        }
    }
    // The saucer timer may spawn a new saucer at a random side.
    if now - w.ufo_last_time > UFO_SPAWN_GAP_MS {
        w.ufos.push(Ufo::new(draws.ufo_side));
        w.ufo_last_time = now;
    }
    let ghost umid = w.ufos@;
    proof {
        assert(umid =~= ufos_mid(w0, now, draws));
        assert(umid == ufos_mid(w0, now, draws));
    }
    // The saucer at index 0 animates, flies, and may trade with the bullet.
    proof {
        assert forall|i: int| 0 <= i < w.ufos@.len() implies {
            &&& -MAX_COORD <= (#[trigger] w.ufos@[i]).x <= MAX_COORD
            &&& -MAX_COORD <= w.ufos@[i].y <= MAX_COORD
            &&& ufo_anim_inv(w.ufos@[i])
        } by {
            if i < w0.ufos@.len() {
                assert(w.ufos@[i] == w0.ufos@[i]);
            }
        }
    }
    ufo_phase(&mut w.ufos, &mut w.bullets, &mut w.game);
    let ghost bl2 = w.bullets@;
    let ghost ufos_done = w.ufos@;
    let ghost sc2 = w.game.score;
    proof {
        assert forall|i: int| 0 <= i < ufos_done.len() implies #[trigger] ufos_done[i] == ufo_end(
            w0,
            now,
            dt,
            draws,
            i,
        ) by {
            if i == 0 {
                assert(ufos_done[0] == ufo_frame_result(umid[0], bullet0(bl1)));
            } else {
                assert(ufos_done[i] == umid[i]);
            }
        }
        assert(bullet0(bl2) == bullet_after_saucer(w0, now, dt, draws)) by {
            if umid.len() == 0 {
                assert(bl2 == bl1);
                assert(!ufo_trades_with_bullet(w0, now, dt, draws));
                if bl1.len() > 0 {
                    assert(bl2[0] == (Bullet { destroyed: bl1[0].destroyed || false, ..bl1[0] }));
                }
            } else if bl1.len() > 0 {
                assert(bl2[0] == (Bullet {
                    destroyed: bl1[0].destroyed || ufo_hits_bullet(umid[0], bullet0(bl1)),
                    ..bl1[0]
                }));
            }
        }
        assert(sc2 == score_plus(
            sc1,
            if ufo_trades_with_bullet(w0, now, dt, draws) {
                SCORE_UFO as int
            } else {
                0int
            },
        )) by {
            if umid.len() == 0 {
                assert(!ufo_trades_with_bullet(w0, now, dt, draws));
                assert(sc2 == sc1);
            }
        }
    }
    // The bomb timer, its random extra delay and a live formation may drop a
    // bomb from a random enemy.
    if now - w.bomb_last_time > BOMB_MIN_GAP_MS {
        if w.enemies.len() > 0 && now - w.bomb_last_time > BOMB_MIN_GAP_MS + draws.bomb_delay_ms {
            let ex = w.enemies[draws.bomb_enemy_index].x;
            let ey = w.enemies[draws.bomb_enemy_index].y;
            w.bombs.push(Bomb::new(ex + BOMB_OFFSET_X, ey + BOMB_OFFSET_Y, draws.bomb_kind));
            w.bomb_last_time = now;
        }
    }
    let ghost bombs_mid = w.bombs@;
    proof {
        assert forall|i: int| 0 <= i < bombs_mid.len() implies bombs_mid[i]
            == bombs_before_blocks(w0, now, dt, draws)[i] by {
            if i < w0.bombs@.len() {
                assert(bombs_mid[i] == bomb_frame_result(
                    w0.bombs@[i],
                    dt,
                    w0.player,
                    bullet0(w0.bullets@),
                ));
            }
        }
        assert(bombs_mid =~= bombs_before_blocks(w0, now, dt, draws));
    }
    // The fire key spawns a bullet only while none exists.
    fire_phase(&mut w.bullets, &w.player, input.shoot);
    // The player moves within the screen bounds.
    w.player.update(input.left, input.right);
    // The bullet climbs and self-destroys past the top.
    proof {
        assert forall|i: int| 0 <= i < w.bullets@.len() implies bullet_inv(
            #[trigger] w.bullets@[i],
        ) by {}
    }
    bullet_phase(&mut w.bullets, dt);
    // The formation slides, animates, and collides with the bullet and the
    // player; any member crossing a bound asks for one pull-down.
    let ghost bullets_at_enemies = w.bullets@;
    proof {
        assert(bullet0(bullets_at_enemies) == bullet_before_formation(w0, input, now, dt, draws))
            by {
            if bl2.len() > 0 {
                assert(bullets_at_enemies[0] == bullet_after(bl2[0], dt));
            } else if input.shoot {
                assert(bullets_at_enemies[0] == bullet_after(fresh_bullet(w0), dt));
            }
        }
        assert forall|i: int| 0 <= i < w.bullets@.len() implies crate::geom::rect_in_bounds(
            bullet_rect(#[trigger] w.bullets@[i]),
        ) by {}
    }
}

/// One playing frame, with the frame's random draws passed in, in the order
/// the frame runs: bombs fall and collide, the saucer spawns and flies, a
/// bomb drops, the fire key spawns a bullet if none lives, the player moves,
/// the bullet climbs, the formation moves and collides, blocks absorb hits,
/// the formation pulls down on a crossing, the score housekeeping runs, and
/// a cleared formation completes the mission. Destroyed entities keep their
/// slots until the garbage-collection pass that `step` runs afterwards.
#[verifier::rlimit(100)]
pub fn game_step(w: &mut World, input: Input, now: u64, dt: u32, draws: Draws)
    requires
        wf(*old(w)),
        old(w).state == GameState::Game,
        now >= old(w).bomb_last_time,
        now >= old(w).ufo_last_time,
        draws.bomb_delay_ms <= BOMB_MAX_EXTRA_MS,
        old(w).enemies@.len() > 0 ==> draws.bomb_enemy_index < old(w).enemies@.len(),
    ensures
        final(w).state == game_step_state(*old(w), input, dt),
        final(w).state == GameState::LevelFail ==> final(w).game.lives >= 1,
        final(w).player == (Player {
            x: player_moved_x(old(w).player.x, input.left, input.right) as i64,
            ..old(w).player
        }),
        player_inv(final(w).player),
        final(w).game.score >= old(w).game.score,
        final(w).game.hi_score == (if final(w).game.score > old(w).game.hi_score {
            final(w).game.score
        } else {
            old(w).game.hi_score
        }),
        final(w).game.hi_score >= old(w).game.hi_score,
        final(w).game.hi_score >= final(w).game.score,
        final(w).game.mission == old(w).game.mission,
        final(w).game.lives == (if final(w).game.score > old(w).next_bonus_at {
            if old(w).game.lives < u32::MAX {
                (old(w).game.lives + 1) as u32
            } else {
                u32::MAX
            }
        } else {
            old(w).game.lives
        }),
        final(w).next_bonus_at == (if final(w).game.score > old(w).next_bonus_at {
            score_plus(old(w).next_bonus_at, BONUS_STEP as int)
        } else {
            old(w).next_bonus_at
        }),
        final(w).game.enemy_speed == (if crossed_of(*old(w)) {
            bumped_speed(old(w).game.enemy_speed)
        } else {
            old(w).game.enemy_speed
        }),
        final(w).game.enemy_speed <= ENEMY_SPEED_CAP,
        final(w).enemy_direction == (if crossed_of(*old(w)) {
            flipped(old(w).enemy_direction)
        } else {
            old(w).enemy_direction
        }),
        final(w).enemies@.len() == old(w).enemies@.len(),
        forall|i: int|
            0 <= i < final(w).enemies@.len() ==> enemy_anim_inv(#[trigger] final(w).enemies@[i])
                && -MAX_COORD <= final(w).enemies@[i].x <= MAX_COORD && -MAX_COORD
                <= final(w).enemies@[i].y && final(w).enemies@[i].y <= ENEMY_Y_LIMIT && (final(w).state != GameState::GameOver ==> final(w).enemies@[i].y <= ENEMY_Y_ACTIVE_LIMIT),
        final(w).bullets@.len() == (if old(w).bullets@.len() == 0 && input.shoot {
            1int
        } else {
            old(w).bullets@.len() as int
        }),
        forall|i: int|
            0 <= i < final(w).bullets@.len() ==> -2 * MAX_COORD <= (#[trigger] final(w).bullets@[i]).x <= 2 * MAX_COORD && (final(w).bullets@[i].y < 0 ==> final(w).bullets@[i].destroyed) && (!final(w).bullets@[i].destroyed ==> 0 <= final(w).bullets@[i].y <= MAX_COORD),
        final(w).ufos@.len() == old(w).ufos@.len() + (if ufo_spawns(*old(w), now) {
            1int
        } else {
            0int
        }),
        final(w).ufo_last_time == (if ufo_spawns(*old(w), now) {
            now
        } else {
            old(w).ufo_last_time
        }),
        forall|i: int|
            0 <= i < final(w).ufos@.len() ==> ufo_anim_inv(#[trigger] final(w).ufos@[i]) && final(w).ufos@[i].y == UFO_Y && (!final(w).ufos@[i].destroyed ==> UFO_LEFT_SPAWN_X <= final(w).ufos@[i].x <= UFO_RIGHT_SPAWN_X),
        final(w).bombs@.len() == old(w).bombs@.len() + (if bomb_spawns(
            *old(w),
            now,
            draws.bomb_delay_ms,
        ) {
            1int
        } else {
            0int
        }),
        final(w).bomb_last_time == (if bomb_spawns(*old(w), now, draws.bomb_delay_ms) {
            now
        } else {
            old(w).bomb_last_time
        }),
        forall|i: int|
            0 <= i < final(w).bombs@.len() ==> anim_inv(
                (#[trigger] final(w).bombs@[i]).anim,
                BOMB_ANIMATION_SPEED,
                BOMB_FRAME_COUNT,
            ) && -2 * MAX_COORD <= final(w).bombs@[i].x <= 2 * MAX_COORD && -MAX_COORD <= final(w).bombs@[i].y && (!final(w).bombs@[i].destroyed ==> final(w).bombs@[i].y
                <= MAX_LIVE_BOMB_Y),
        final(w).blocks@.len() == old(w).blocks@.len(),
        forall|j: int|
            0 <= j < final(w).blocks@.len() ==> block_inv(#[trigger] final(w).blocks@[j]),
        forall|i: int|
            0 <= i < final(w).bombs@.len() ==> #[trigger] final(w).bombs@[i] == bomb_block_result(
                bombs_before_blocks(*old(w), now, dt, draws)[i],
                old(w).blocks@,
            ),
        forall|i: int|
            0 <= i < final(w).enemies@.len() ==> #[trigger] final(w).enemies@[i] == enemy_end(
                *old(w),
                input,
                now,
                dt,
                draws,
                i,
            ),
        forall|j: int|
            0 <= j < final(w).blocks@.len() ==> #[trigger] final(w).blocks@[j]
                == block_frame_result(
                old(w).blocks@[j],
                formation_result(*old(w), input, now, dt, draws),
                bullet_after_formation(*old(w), input, now, dt, draws),
                bombs_before_blocks(*old(w), now, dt, draws),
            ),
        forall|i: int|
            0 <= i < final(w).ufos@.len() ==> #[trigger] final(w).ufos@[i] == ufo_end(
                *old(w),
                now,
                dt,
                draws,
                i,
            ),
        bullet0(final(w).bullets@) == bullet_end(*old(w), input, now, dt, draws),
        final(w).game.score == score_end(*old(w), input, now, dt, draws),
{
    let ghost w0 = *old(w);
    // Bombs and the saucer act, spawners run, the player moves and the
    // bullet climbs.
    projectile_phases(w, input, now, dt, draws);
    let ghost bullets_at_enemies = w.bullets@;
    let ghost bombs_mid = w.bombs@;
    let crossed = enemies_phase(
        &mut w.enemies,
        &mut w.bullets,
        &w.player,
        &mut w.game,
        &mut w.state,
        w.enemy_direction,
    );
    // Blocks absorb enemies, the bullet and bombs.
    proof {
        assert forall|i: int| 0 <= i < w.bullets@.len() implies crate::geom::rect_in_bounds(
            bullet_rect(#[trigger] w.bullets@[i]),
        ) by {
            assert(w.bullets@[i].x == bullets_at_enemies[i].x);
            assert(w.bullets@[i].y == bullets_at_enemies[i].y);
        }
        assert forall|i: int| 0 <= i < w.bombs@.len() implies crate::geom::rect_in_bounds(
            bomb_rect(#[trigger] w.bombs@[i]),
        ) by {}
    }
    let ghost bl5 = w.bullets@;
    let ghost ens_moved = w.enemies@;
    proof {
        assert(ens_moved =~= formation_result(w0, input, now, dt, draws));
        assert(ens_moved == formation_result(w0, input, now, dt, draws));
        assert(bullet0(bl5) == bullet_after_formation(w0, input, now, dt, draws)) by {
            if bullets_at_enemies.len() > 0 {
                assert(bl5[0] == (Bullet {
                    destroyed: bullets_at_enemies[0].destroyed || any_enemy_hits_bullet(
                        w0.enemies@,
                        w0.enemy_direction,
                        w0.game.enemy_speed,
                        bullet0(bullets_at_enemies),
                    ),
                    ..bullets_at_enemies[0]
                }));
            }
        }
        assert(w.game.score == score_end(w0, input, now, dt, draws));
        assert(w.blocks@ == w0.blocks@);
        assert(w.bombs@ == bombs_mid);
    }
    blocks_phase(&mut w.blocks, &w.enemies, &mut w.bullets, &mut w.bombs);
    proof {
        assert(bullet0(w.bullets@) == bullet_end(w0, input, now, dt, draws));
    }
    // One pull-down, speed-up and direction flip for the whole frame.
    pulldown_phase(&mut w.enemies, &mut w.game, &mut w.enemy_direction, crossed);
    proof {
        assert forall|i: int| 0 <= i < w.enemies@.len() implies #[trigger] w.enemies@[i]
            == enemy_end(w0, input, now, dt, draws, i) by {
            assert(ens_moved[i] == formation_result(w0, input, now, dt, draws)[i]);
        }
    }
    // The high score follows the score; bonus thresholds grant lives.
    update_hi_score_and_bonus(&mut w.game, &mut w.next_bonus_at);
    // A cleared formation completes the mission.
    if w.enemies.len() == 0 {
        w.state = GameState::LevelCompleted;
    }
}

/// What the garbage-collection pass leaves: each collection pruned of its
/// destroyed entities in order, everything else unchanged.
pub open spec fn gc_post(w0: World, w1: World) -> bool {
    &&& w1.bullets@ == retained(w0.bullets@, |b: Bullet| !b.destroyed)
    &&& w1.bombs@ == retained(w0.bombs@, |b: Bomb| !b.destroyed)
    &&& w1.enemies@ == retained(w0.enemies@, |e: Enemy| !e.destroyed)
    &&& w1.blocks@ == retained(w0.blocks@, |b: Block| !b.destroyed)
    &&& w1.ufos@ == retained(w0.ufos@, |u: Ufo| !u.destroyed)
    &&& w1.state == w0.state
    &&& w1.game == w0.game
    &&& w1.player == w0.player
    &&& w1.enemy_direction == w0.enemy_direction
    &&& w1.bomb_last_time == w0.bomb_last_time
    &&& w1.ufo_last_time == w0.ufo_last_time
    &&& w1.next_bonus_at == w0.next_bonus_at
}

/// Everything the intro handler promises, as a relation between the worlds
/// before and after it.
pub open spec fn intro_post(w0: World, input: Input, w1: World) -> bool {
    &&& (w1.state == (if input.confirm {
            GameState::InitLevel
        } else {
            GameState::Intro
        }))
    &&& (w1.game.score == 0)
    &&& (w1.game.hi_score == w0.game.hi_score)
    &&& (w1.game.lives == START_LIVES)
    &&& (w1.game.mission == 1)
    &&& (w1.game.enemy_speed == ENEMY_INIT_SPEED)
    &&& (w1.player == w0.player)
    &&& (w1.enemies@ == w0.enemies@)
    &&& (w1.blocks@ == w0.blocks@)
    &&& (w1.bullets@ == w0.bullets@)
    &&& (w1.bombs@ == w0.bombs@)
    &&& (w1.ufos@ == w0.ufos@)
    &&& (w1.enemy_direction == w0.enemy_direction)
    &&& (w1.bomb_last_time == w0.bomb_last_time)
    &&& (w1.ufo_last_time == w0.ufo_last_time)
    &&& (w1.next_bonus_at == w0.next_bonus_at)
}

/// Everything the level-banner handler promises.
pub open spec fn init_level_post(w0: World, input: Input, now: u64, w1: World) -> bool {
    &&& (w1.state == (if input.confirm {
            GameState::Game
        } else {
            GameState::InitLevel
        }))
    &&& (w1.bomb_last_time == now)
    &&& (w1.player == (Player { x: PLAYER_START_X, ..w0.player }))
    &&& (w1.enemies@.len() == w0.enemies@.len())
    &&& (forall|i: int|
            0 <= i < w0.enemies@.len() ==> #[trigger] w1.enemies@[i] == (Enemy {
                anim: anim_stepped(
                    w0.enemies@[i].anim,
                    ENEMY_ANIMATION_SPEED,
                    ENEMY_FRAME_COUNT,
                ),
                ..w0.enemies@[i]
            }))
    &&& (w1.game == w0.game)
    &&& (w1.blocks@ == w0.blocks@)
    &&& (w1.bullets@ == w0.bullets@)
    &&& (w1.bombs@ == w0.bombs@)
    &&& (w1.ufos@ == w0.ufos@)
    &&& (w1.enemy_direction == w0.enemy_direction)
    &&& (w1.ufo_last_time == w0.ufo_last_time)
    &&& (w1.next_bonus_at == w0.next_bonus_at)
}

/// Everything the mission-fail handler promises.
pub open spec fn level_fail_post(w0: World, input: Input, w1: World) -> bool {
    &&& (w1.enemies@.len() == w0.enemies@.len())
    &&& (forall|i: int|
            0 <= i < w0.enemies@.len() ==> #[trigger] w1.enemies@[i] == (Enemy {
                anim: anim_stepped(
                    w0.enemies@[i].anim,
                    ENEMY_ANIMATION_SPEED,
                    ENEMY_FRAME_COUNT,
                ),
                ..w0.enemies@[i]
            }))
    &&& (input.confirm ==> {
            &&& w1.state == GameState::Game
            &&& w1.game.lives == w0.game.lives - 1
            &&& w1.player == (Player { x: PLAYER_START_X, ..w0.player })
            &&& w1.bullets@.len() == 0
            &&& w1.bombs@.len() == 0
            &&& w1.ufos@.len() == 0
        })
    &&& (!input.confirm ==> {
            &&& w1.state == GameState::LevelFail
            &&& w1.game == w0.game
            &&& w1.player == w0.player
            &&& w1.bullets@ == w0.bullets@
            &&& w1.bombs@ == w0.bombs@
            &&& w1.ufos@ == w0.ufos@
        })
    &&& (w1.game.score == w0.game.score)
    &&& (w1.game.hi_score == w0.game.hi_score)
    &&& (w1.game.mission == w0.game.mission)
    &&& (w1.game.enemy_speed == w0.game.enemy_speed)
    &&& (w1.blocks@ == w0.blocks@)
    &&& (w1.enemy_direction == w0.enemy_direction)
    &&& (w1.bomb_last_time == w0.bomb_last_time)
    &&& (w1.ufo_last_time == w0.ufo_last_time)
    &&& (w1.next_bonus_at == w0.next_bonus_at)
}

/// Everything the mission-complete handler promises.
pub open spec fn level_completed_post(w0: World, input: Input, w1: World) -> bool {
    &&& (input.confirm ==> {
            &&& w1.state == GameState::InitLevel
            &&& w1.player == (Player { x: PLAYER_START_X, ..w0.player })
            &&& w1.bullets@.len() == 0
            &&& w1.bombs@.len() == 0
            &&& w1.ufos@.len() == 0
            &&& enemies_layout_ok(w1.enemies@)
            &&& blocks_layout_ok(w1.blocks@)
            &&& w1.game.mission == (if w0.game.mission < u32::MAX {
                (w0.game.mission + 1) as u32
            } else {
                u32::MAX
            })
            &&& w1.game.enemy_speed == mission_speed(w1.game.mission)
        })
    &&& (!input.confirm ==> w1 == w0)
    &&& (w1.game.score == w0.game.score)
    &&& (w1.game.hi_score == w0.game.hi_score)
    &&& (w1.game.lives == w0.game.lives)
    &&& (w1.enemy_direction == w0.enemy_direction)
    &&& (w1.bomb_last_time == w0.bomb_last_time)
    &&& (w1.ufo_last_time == w0.ufo_last_time)
    &&& (w1.next_bonus_at == w0.next_bonus_at)
}

/// Everything the game-over handler promises.
pub open spec fn game_over_post(w0: World, input: Input, w1: World) -> bool {
    &&& (input.confirm ==> {
            &&& w1.state == GameState::InitLevel
            &&& w1.bullets@.len() == 0
            &&& w1.bombs@.len() == 0
            &&& w1.ufos@.len() == 0
            &&& enemies_layout_ok(w1.enemies@)
            &&& blocks_layout_ok(w1.blocks@)
            &&& w1.game.score == 0
            &&& w1.game.lives == START_LIVES
            &&& w1.game.mission == 1
            &&& w1.game.enemy_speed == ENEMY_INIT_SPEED
        })
    &&& (!input.confirm ==> {
            &&& w1.state == GameState::GameOver
            &&& w1.game == w0.game
            &&& w1.blocks@ == w0.blocks@
            &&& w1.bullets@ == w0.bullets@
            &&& w1.bombs@ == w0.bombs@
            &&& w1.ufos@ == w0.ufos@
            &&& w1.enemies@.len() == w0.enemies@.len()
            &&& forall|i: int|
                0 <= i < w0.enemies@.len() ==> #[trigger] w1.enemies@[i] == (Enemy {
                    anim: anim_stepped(
                        w0.enemies@[i].anim,
                        ENEMY_ANIMATION_SPEED,
                        ENEMY_FRAME_COUNT,
                    ),
                    ..w0.enemies@[i]
                })
        })
    &&& (w1.game.hi_score == w0.game.hi_score)
    &&& (w1.player == w0.player)
    &&& (w1.enemy_direction == w0.enemy_direction)
    &&& (w1.bomb_last_time == w0.bomb_last_time)
    &&& (w1.ufo_last_time == w0.ufo_last_time)
    &&& (w1.next_bonus_at == w0.next_bonus_at)
}

/// Everything one playing frame promises, as a relation between the worlds
/// before the frame and after its phases, before garbage collection: the
/// end state, the session and bonus accounting, the exact spawn conditions
/// and timers, and the exact end value of every entity, bullet and the
/// score.
pub open spec fn game_step_post(w0: World, input: Input, now: u64, dt: u32, draws: Draws, w1: World) -> bool {
    &&& (w1.state == game_step_state(w0, input, dt))
    &&& (w1.state == GameState::LevelFail ==> w1.game.lives >= 1)
    &&& (w1.player == (Player {
            x: player_moved_x(w0.player.x, input.left, input.right) as i64,
            ..w0.player
        }))
    &&& (player_inv(w1.player))
    &&& (w1.game.score >= w0.game.score)
    &&& (w1.game.hi_score == (if w1.game.score > w0.game.hi_score {
            w1.game.score
        } else {
            w0.game.hi_score
        }))
    &&& (w1.game.hi_score >= w0.game.hi_score)
    &&& (w1.game.hi_score >= w1.game.score)
    &&& (w1.game.mission == w0.game.mission)
    &&& (w1.game.lives == (if w1.game.score > w0.next_bonus_at {
            if w0.game.lives < u32::MAX {
                (w0.game.lives + 1) as u32
            } else {
                u32::MAX
            }
        } else {
            w0.game.lives
        }))
    &&& (w1.next_bonus_at == (if w1.game.score > w0.next_bonus_at {
            score_plus(w0.next_bonus_at, BONUS_STEP as int)
        } else {
            w0.next_bonus_at
        }))
    &&& (w1.game.enemy_speed == (if crossed_of(w0) {
            bumped_speed(w0.game.enemy_speed)
        } else {
            w0.game.enemy_speed
        }))
    &&& (w1.game.enemy_speed <= ENEMY_SPEED_CAP)
    &&& (w1.enemy_direction == (if crossed_of(w0) {
            flipped(w0.enemy_direction)
        } else {
            w0.enemy_direction
        }))
    &&& (w1.enemies@.len() == w0.enemies@.len())
    &&& (forall|i: int|
            0 <= i < w1.enemies@.len() ==> enemy_anim_inv(#[trigger] w1.enemies@[i])
                && -MAX_COORD <= w1.enemies@[i].x <= MAX_COORD && -MAX_COORD
                <= w1.enemies@[i].y && w1.enemies@[i].y <= ENEMY_Y_LIMIT && (w1.state != GameState::GameOver ==> w1.enemies@[i].y <= ENEMY_Y_ACTIVE_LIMIT))
    &&& (w1.bullets@.len() == (if w0.bullets@.len() == 0 && input.shoot {
            1int
        } else {
            w0.bullets@.len() as int
        }))
    &&& (forall|i: int|
            0 <= i < w1.bullets@.len() ==> -2 * MAX_COORD <= (#[trigger] w1.bullets@[i]).x <= 2 * MAX_COORD && (w1.bullets@[i].y < 0 ==> w1.bullets@[i].destroyed) && (!w1.bullets@[i].destroyed ==> 0 <= w1.bullets@[i].y <= MAX_COORD))
    &&& (w1.ufos@.len() == w0.ufos@.len() + (if ufo_spawns(w0, now) {
            1int
        } else {
            0int
        }))
    &&& (w1.ufo_last_time == (if ufo_spawns(w0, now) {
            now
        } else {
            w0.ufo_last_time
        }))
    &&& (forall|i: int|
            0 <= i < w1.ufos@.len() ==> ufo_anim_inv(#[trigger] w1.ufos@[i]) && w1.ufos@[i].y == UFO_Y && (!w1.ufos@[i].destroyed ==> UFO_LEFT_SPAWN_X <= w1.ufos@[i].x <= UFO_RIGHT_SPAWN_X))
    &&& (w1.bombs@.len() == w0.bombs@.len() + (if bomb_spawns(
            w0,
            now,
            draws.bomb_delay_ms,
        ) {
            1int
        } else {
            0int
        }))
    &&& (w1.bomb_last_time == (if bomb_spawns(w0, now, draws.bomb_delay_ms) {
            now
        } else {
            w0.bomb_last_time
        }))
    &&& (forall|i: int|
            0 <= i < w1.bombs@.len() ==> anim_inv(
                (#[trigger] w1.bombs@[i]).anim,
                BOMB_ANIMATION_SPEED,
                BOMB_FRAME_COUNT,
            ) && -2 * MAX_COORD <= w1.bombs@[i].x <= 2 * MAX_COORD && -MAX_COORD <= w1.bombs@[i].y && (!w1.bombs@[i].destroyed ==> w1.bombs@[i].y
                <= MAX_LIVE_BOMB_Y))
    &&& (w1.blocks@.len() == w0.blocks@.len())
    &&& (forall|j: int|
            0 <= j < w1.blocks@.len() ==> block_inv(#[trigger] w1.blocks@[j]))
    &&& (forall|i: int|
            0 <= i < w1.bombs@.len() ==> #[trigger] w1.bombs@[i] == bomb_block_result(
                bombs_before_blocks(w0, now, dt, draws)[i],
                w0.blocks@,
            ))
    &&& (forall|i: int|
            0 <= i < w1.enemies@.len() ==> #[trigger] w1.enemies@[i] == enemy_end(
                w0,
                input,
                now,
                dt,
                draws,
                i,
            ))
    &&& (forall|j: int|
            0 <= j < w1.blocks@.len() ==> #[trigger] w1.blocks@[j]
                == block_frame_result(
                w0.blocks@[j],
                formation_result(w0, input, now, dt, draws),
                bullet_after_formation(w0, input, now, dt, draws),
                bombs_before_blocks(w0, now, dt, draws),
            ))
    &&& (forall|i: int|
            0 <= i < w1.ufos@.len() ==> #[trigger] w1.ufos@[i] == ufo_end(
                w0,
                now,
                dt,
                draws,
                i,
            ))
    &&& (bullet0(w1.bullets@) == bullet_end(w0, input, now, dt, draws))
    &&& (w1.game.score == score_end(w0, input, now, dt, draws))
}

/// One whole frame at the library boundary: the active state's handler
/// composed with the garbage-collection pass, through the intermediate
/// world the handler produced.
pub open spec fn step_post(w0: World, input: Input, now: u64, dt: u32, draws: Draws, w1: World) -> bool {
    match w0.state {
        GameState::Intro => exists|mid: World| (#[trigger] intro_post(w0, input, mid)) && gc_post(mid, w1),
        GameState::InitLevel => exists|mid: World| (#[trigger] init_level_post(w0, input, now, mid)) && gc_post(mid, w1),
        GameState::Game => exists|mid: World| (#[trigger] game_step_post(w0, input, now, dt, draws, mid)) && gc_post(mid, w1),
        GameState::LevelFail => exists|mid: World| (#[trigger] level_fail_post(w0, input, mid)) && gc_post(mid, w1),
        GameState::Paused => gc_post(w0, w1),
        GameState::LevelCompleted => exists|mid: World| (#[trigger] level_completed_post(w0, input, mid)) && gc_post(mid, w1),
        GameState::GameOver => exists|mid: World| (#[trigger] game_over_post(w0, input, mid)) && gc_post(mid, w1),
    }
}

/// The state one frame's handler leaves the machine in, for every state.
pub open spec fn step_next_state(w: World, input: Input, dt: u32) -> GameState {
    match w.state {
        GameState::Intro => if input.confirm {
            GameState::InitLevel
        } else {
            GameState::Intro
        },
        GameState::InitLevel => if input.confirm {
            GameState::Game
        } else {
            GameState::InitLevel
        },
        GameState::Game => game_step_state(w, input, dt),
        GameState::LevelFail => if input.confirm {
            GameState::Game
        } else {
            GameState::LevelFail
        },
        GameState::Paused => GameState::Paused,
        GameState::LevelCompleted => if input.confirm {
            GameState::InitLevel
        } else {
            GameState::LevelCompleted
        },
        GameState::GameOver => if input.confirm {
            GameState::InitLevel
        } else {
            GameState::GameOver
        },
    }
}

impl World {
    /// One full frame with the random draws passed in: the active state's
    /// handler runs, then the garbage-collection pass removes every entity
    /// flagged destroyed. Well-formedness is preserved, the high score never
    /// decreases, and the next state is exactly `step_next_state`.
    pub fn step(&mut self, input: Input, now: u64, dt: u32, draws: Draws)
        requires
            wf(*old(self)),
            now >= old(self).bomb_last_time,
            now >= old(self).ufo_last_time,
            draws.bomb_delay_ms <= BOMB_MAX_EXTRA_MS,
            old(self).state == GameState::Game && old(self).enemies@.len() > 0
                ==> draws.bomb_enemy_index < old(self).enemies@.len(),
        ensures
            wf(*final(self)),
            final(self).state == step_next_state(*old(self), input, dt),
            step_post(*old(self), input, now, dt, draws, *final(self)),
            final(self).game.hi_score >= old(self).game.hi_score,
            final(self).bomb_last_time <= now,
            final(self).ufo_last_time <= now,
    {
        let state_now = self.state;
        match state_now {
            GameState::Intro => {
                intro_step(self, input);
            },
            GameState::InitLevel => {
                init_level_step(self, input, now);
            },
            GameState::Game => {
                game_step(self, input, now, dt, draws);
            },
            GameState::LevelFail => {
                level_fail_step(self, input);
            },
            GameState::Paused => {
                paused_step(self);
            },
            GameState::LevelCompleted => {
                level_completed_step(self, input);
            },
            GameState::GameOver => {
                game_over_step(self, input);
            },
        }
        let ghost mid = *self;
        let ghost was_game = old(self).state == GameState::Game;
        gc_pass(self);
        proof {
            let live_bl = |b: Bullet| !b.destroyed;
            let live_bm = |b: Bomb| !b.destroyed;
            let live_en = |e: Enemy| !e.destroyed;
            let live_bk = |b: Block| !b.destroyed;
            let live_uf = |u: Ufo| !u.destroyed;
            if was_game {
                let st = mid.state;
                let p_bl = |b: Bullet| -2 * MAX_COORD <= b.x <= 2 * MAX_COORD && 0 <= b.y
                    <= MAX_COORD;
                let p_bm = |b: Bomb| bomb_inv(b) && b.y <= MAX_LIVE_BOMB_Y;
                let p_en = |e: Enemy| enemy_anim_inv(e) && -MAX_COORD <= e.x <= MAX_COORD
                    && -MAX_COORD <= e.y && e.y <= ENEMY_Y_LIMIT && (st != GameState::GameOver
                    ==> e.y <= ENEMY_Y_ACTIVE_LIMIT);
                let p_bk = |b: Block| block_inv(b);
                let p_uf = |u: Ufo| ufo_anim_inv(u) && UFO_LEFT_SPAWN_X <= u.x <= UFO_RIGHT_SPAWN_X
                    && u.y == UFO_Y;
                lemma_retained_live(mid.bullets@, live_bl, p_bl);
                lemma_retained_live(mid.bombs@, live_bm, p_bm);
                lemma_retained_live(mid.enemies@, live_en, p_en);
                lemma_retained_live(mid.blocks@, live_bk, p_bk);
                lemma_retained_live(mid.ufos@, live_uf, p_uf);
                assert(wf(*self));
            } else {
                assert(wf(mid));
                lemma_retained_id(mid.bullets@, live_bl);
                lemma_retained_id(mid.bombs@, live_bm);
                lemma_retained_id(mid.enemies@, live_en);
                lemma_retained_id(mid.blocks@, live_bk);
                lemma_retained_id(mid.ufos@, live_uf);
                assert(wf(*self));
            }
            assert(gc_post(mid, *self));
            match old(self).state {
                GameState::Intro => {
                    assert(intro_post(*old(self), input, mid));
                },
                GameState::InitLevel => {
                    assert(init_level_post(*old(self), input, now, mid));
                },
                GameState::Game => {
                    assert(game_step_post(*old(self), input, now, dt, draws, mid));
                },
                GameState::LevelFail => {
                    assert(level_fail_post(*old(self), input, mid));
                },
                GameState::Paused => {
                    assert(mid == *old(self));
                },
                GameState::LevelCompleted => {
                    assert(level_completed_post(*old(self), input, mid));
                },
                GameState::GameOver => {
                    assert(game_over_post(*old(self), input, mid));
                },
            }
            assert(step_post(*old(self), input, now, dt, draws, *self));
        }
    }

    /// One full frame against the real clock and input: the frame's random
    /// draws are taken (the saucer's side, the bomb delay, the bomb kind and
    /// the dropping enemy), then the deterministic step runs. The resulting
    /// state does not depend on the draws.
    pub fn frame(&mut self, input: Input, now: u64, dt: u32)
        requires
            wf(*old(self)),
            now >= old(self).bomb_last_time,
            now >= old(self).ufo_last_time,
        ensures
            wf(*final(self)),
            final(self).state == step_next_state(*old(self), input, dt),
            exists|draws: Draws|
                (#[trigger] step_post(*old(self), input, now, dt, draws, *final(self)))
                    && draws.bomb_delay_ms <= BOMB_MAX_EXTRA_MS,
            final(self).game.hi_score >= old(self).game.hi_score,
            final(self).bomb_last_time <= now,
            final(self).ufo_last_time <= now,
    {
        let side: Dir = if rand_range(0, 2) == 0 {
            Dir::Left
        } else {
            Dir::Right
        };
        let delay: u64 = rand_range(0, BOMB_MAX_EXTRA_MS + 1);
        let kind: BombKind = if rand_range(0, 2) == 0 {
            BombKind::A
        } else {
            BombKind::B
        };
        let index: usize = if self.enemies.len() > 0 {
            let r = rand_range(0, self.enemies.len() as u64);
            proof {
                assert(r <= usize::MAX as u64);
            }
            r as usize
        } else {
            0
        };
        let draws = Draws {
            ufo_side: side,
            bomb_delay_ms: delay,
            bomb_kind: kind,
            bomb_enemy_index: index,
        };
        self.step(input, now, dt, draws);
        proof {
            assert(step_post(*old(self), input, now, dt, draws, *self)
                && draws.bomb_delay_ms <= BOMB_MAX_EXTRA_MS);
        }
    }
}

} // verus!
