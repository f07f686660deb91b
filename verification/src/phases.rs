//! The per-frame phases of the playing state, in the order the frame runs
//! them: bomb updates and bomb collisions, saucer processing, firing, the
//! bullet update, formation movement and enemy collisions, block collisions,
//! and the formation pull-down. Each phase's contract states exactly which
//! flags, scores and positions it produces from its inputs.

use vstd::prelude::*;
use crate::Dir;
use crate::GameState;
use crate::anim::anim_stepped;
use crate::bomb::{Bomb, bomb_after, bomb_inv, bomb_rect, BOMB_ANIMATION_SPEED, BOMB_FRAME_COUNT};
use crate::bullet::{Bullet, bullet_inv, bullet_rect, BULLET_OFFSET_X};
use crate::block::{Block, block_inv, block_rect};
use crate::enemy::{
    Enemy, enemy_anim_inv, enemy_rect, ENEMY_ANIMATION_SPEED, ENEMY_FRAME_COUNT, ENEMY_H,
    ENEMY_LEFT_BOUND, ENEMY_PULL_DOWN, ENEMY_RIGHT_BOUND,
};
use crate::game::{
    Game, bumped_speed, score_plus, lemma_score_step, SCORE_BOMB, SCORE_ENEMY, SCORE_UFO,
    ENEMY_SPEED_CAP,
};
use crate::gc::{count_matching, lemma_count_prefix, lemma_count_nonneg};
use crate::geom::{Rect, rect_overlap, rect_in_bounds, clamp_coord, MAX_COORD, GEOM_BOUND};
use crate::player::{Player, player_inv, player_rect};
use crate::ufo::{Ufo, ufo_after, ufo_anim_inv, ufo_rect, UFO_ANIMATION_SPEED, UFO_FRAME_COUNT};

verus! {

/// The bullet the frame's collision checks test against: the one at index 0,
/// if any exists.
pub open spec fn bullet0(bullets: Seq<Bullet>) -> Option<Bullet> {
    if bullets.len() > 0 {
        Some(bullets[0])
    } else {
        None
    }
}

/// Whether the bomb, once moved by `dt`, overlaps the player.
pub open spec fn bomb_hits_player(b: Bomb, dt: u32, p: Player) -> bool {
    rect_overlap(bomb_rect(bomb_after(b, dt)), player_rect(p))
}

/// Whether the bomb, once moved by `dt`, overlaps the active bullet.
pub open spec fn bomb_hits_bullet(b: Bomb, dt: u32, ob: Option<Bullet>) -> bool {
    match ob {
        Some(bl) => rect_overlap(bomb_rect(bomb_after(b, dt)), bullet_rect(bl)),
        None => false,
    }
}

/// A bomb after the whole bomb phase: moved, animated, and destroyed if it
/// left the field or hit the player or the bullet.
pub open spec fn bomb_frame_result(b: Bomb, dt: u32, p: Player, ob: Option<Bullet>) -> Bomb {
    let a = bomb_after(b, dt);
    let a2 = Bomb { anim: anim_stepped(a.anim, BOMB_ANIMATION_SPEED, BOMB_FRAME_COUNT), ..a };
    Bomb {
        destroyed: a2.destroyed || bomb_hits_player(b, dt, p) || bomb_hits_bullet(b, dt, ob),
        ..a2
    }
}

/// The trade predicate the bomb score counts: whether a bomb, once moved,
/// overlaps the active bullet.
pub open spec fn bomb_bullet_trade(dt: u32, ob: Option<Bullet>) -> spec_fn(Bomb) -> bool {
    |b: Bomb| bomb_hits_bullet(b, dt, ob)
}

/// Whether any bomb of the frame hits the player.
pub open spec fn any_bomb_hits_player(s: Seq<Bomb>, dt: u32, p: Player) -> bool {
    exists|i: int| 0 <= i < s.len() && bomb_hits_player(#[trigger] s[i], dt, p)
}

/// Whether any bomb of the frame hits the active bullet.
pub open spec fn any_bomb_hits_bullet(s: Seq<Bomb>, dt: u32, ob: Option<Bullet>) -> bool {
    exists|i: int| 0 <= i < s.len() && bomb_hits_bullet(#[trigger] s[i], dt, ob)
}

/// Bomb phase (the first phase of a playing frame, so rectangles are taken
/// at the frame's entry positions): every bomb falls, animates, and is
/// destroyed on leaving the field or on overlap with the player or the
/// bullet; a bomb overlapping the player sends the state to `LevelFail`
/// while lives remain, else to `GameOver`; each bomb overlapping the bullet
/// destroys the bullet and scores `SCORE_BOMB`.
#[verifier::loop_isolation(false)]
pub fn bombs_phase(
    bombs: &mut Vec<Bomb>,
    bullets: &mut Vec<Bullet>,
    player: &Player,
    game: &mut Game,
    state: &mut GameState,
    dt: u32,
)
    requires
        forall|i: int| 0 <= i < old(bombs)@.len() ==> bomb_inv(#[trigger] old(bombs)@[i]),
        forall|i: int| 0 <= i < old(bullets)@.len() ==> bullet_inv(#[trigger] old(bullets)@[i]),
        old(bullets)@.len() <= 1,
        player_inv(*player),
    ensures
        final(bombs)@.len() == old(bombs)@.len(),
        forall|i: int|
            0 <= i < old(bombs)@.len() ==> #[trigger] final(bombs)@[i] == bomb_frame_result(
                old(bombs)@[i],
                dt,
                *player,
                bullet0(old(bullets)@),
            ),
        final(bullets)@.len() == old(bullets)@.len(),
        old(bullets)@.len() > 0 ==> final(bullets)@[0] == (Bullet {
            destroyed: old(bullets)@[0].destroyed || any_bomb_hits_bullet(
                old(bombs)@,
                dt,
                bullet0(old(bullets)@),
            ),
            ..old(bullets)@[0]
        }),
        final(game).score == score_plus(
            old(game).score,
            SCORE_BOMB * count_matching(old(bombs)@, bomb_bullet_trade(dt, bullet0(old(bullets)@))),
        ),
        final(game).score >= old(game).score,
        final(game).hi_score == old(game).hi_score,
        final(game).lives == old(game).lives,
        final(game).mission == old(game).mission,
        final(game).enemy_speed == old(game).enemy_speed,
        *final(state) == (if any_bomb_hits_player(old(bombs)@, dt, *player) {
            if old(game).lives > 0 {
                GameState::LevelFail
            } else {
                GameState::GameOver
            }
        } else {
            *old(state)
        }),
{
    let ghost s0 = bombs@;
    let ghost ob = bullet0(bullets@);
    let ghost hits_bullet_pred = bomb_bullet_trade(dt, ob);
    let has_bullet: bool = bullets.len() > 0;
    let bullet_rect_now: Rect = if has_bullet {
        bullets[0].rect()
    } else {
        Rect::new(0, 0, 0, 0)
    };
    let player_rect_now: Rect = player.rect();
    let mut hit_player: bool = false;
    let mut hit_bullet: bool = false;
    let mut out: Vec<Bomb> = Vec::new();
    let mut i: usize = 0;
    while i < bombs.len()
        invariant
            bombs@ == s0,
            bullets@ == old(bullets)@,
            i <= s0.len(),
            out@.len() == i,
            forall|k: int|
                0 <= k < i ==> #[trigger] out@[k] == bomb_frame_result(s0[k], dt, *player, ob),
            hit_player == (exists|k: int|
                0 <= k < i && bomb_hits_player(#[trigger] s0[k], dt, *player)),
            hit_bullet == (exists|k: int|
                0 <= k < i && bomb_hits_bullet(#[trigger] s0[k], dt, ob)),
            game.score == score_plus(
                old(game).score,
                SCORE_BOMB * count_matching(s0.subrange(0, i as int), hits_bullet_pred),
            ),
            game.hi_score == old(game).hi_score,
            game.lives == old(game).lives,
            game.mission == old(game).mission,
            game.enemy_speed == old(game).enemy_speed,
        decreases s0.len() - i,
    {
        proof {
            lemma_count_prefix(s0, hits_bullet_pred, i as int);
            lemma_count_nonneg(s0.subrange(0, i as int), hits_bullet_pred);
        }
        let mut b = bombs[i];
        b.update(dt);
        b.update_animation();
        let br = b.rect();
        if br.overlaps(&player_rect_now) {
            b.destroyed = true;
            hit_player = true;
        }
        if has_bullet && br.overlaps(&bullet_rect_now) {
            b.destroyed = true;
            hit_bullet = true;
            proof {
                lemma_score_step(
                    old(game).score,
                    SCORE_BOMB,
                    count_matching(s0.subrange(0, i as int), hits_bullet_pred),
                );
            }
            game.score = game.score.saturating_add(SCORE_BOMB);
        }
        proof {
            assert(b == bomb_frame_result(s0[i as int], dt, *player, ob));
        }
        out.push(b);
        i = i + 1;
    }
    proof {
        assert(s0.subrange(0, s0.len() as int) =~= s0);
        let c = count_matching(s0, hits_bullet_pred);
        lemma_count_nonneg(s0, hits_bullet_pred);
        assert(SCORE_BOMB * c >= 0) by (nonlinear_arith)
            requires
                c >= 0,
        ;
    }
    *bombs = out;
    if hit_player {
        if game.lives > 0 {
            *state = GameState::LevelFail;
        } else {
            *state = GameState::GameOver;
        }
    }
    if hit_bullet {
        let popped = bullets.pop();
        if let Some(mut b0) = popped {
            b0.destroyed = true;
            bullets.push(b0);
        }
    }
}

/// Whether the saucer, once moved this frame, overlaps the active bullet.
pub open spec fn ufo_hits_bullet(u: Ufo, ob: Option<Bullet>) -> bool {
    match ob {
        Some(bl) => rect_overlap(bullet_rect(bl), ufo_rect(ufo_after(u))),
        None => false,
    }
}

/// The saucer at index 0 after its phase: animated, moved, and destroyed on
/// exiting the far edge or on overlap with the bullet.
pub open spec fn ufo_frame_result(u: Ufo, ob: Option<Bullet>) -> Ufo {
    let a = Ufo { anim: anim_stepped(u.anim, UFO_ANIMATION_SPEED, UFO_FRAME_COUNT), ..u };
    let m = ufo_after(a);
    Ufo { destroyed: m.destroyed || ufo_hits_bullet(u, ob), ..m }
}

/// Saucer phase: only the saucer at index 0 is processed. It animates and
/// moves; if it overlaps the active bullet both are destroyed and the
/// saucer's score is earned. Saucers past index 0 are left untouched.
#[verifier::loop_isolation(false)]
pub fn ufo_phase(ufos: &mut Vec<Ufo>, bullets: &mut Vec<Bullet>, game: &mut Game)
    requires
        forall|i: int|
            0 <= i < old(ufos)@.len() ==> {
                &&& -MAX_COORD <= #[trigger] old(ufos)@[i].x <= MAX_COORD
                &&& -MAX_COORD <= old(ufos)@[i].y <= MAX_COORD
                &&& ufo_anim_inv(old(ufos)@[i])
            },
        forall|i: int| 0 <= i < old(bullets)@.len() ==> bullet_inv(#[trigger] old(bullets)@[i]),
        old(bullets)@.len() <= 1,
    ensures
        final(ufos)@.len() == old(ufos)@.len(),
        final(bullets)@.len() == old(bullets)@.len(),
        old(ufos)@.len() == 0 ==> final(ufos)@ == old(ufos)@ && final(bullets)@ == old(bullets)@
            && *final(game) == *old(game),
        old(ufos)@.len() > 0 ==> {
            &&& final(ufos)@[0] == ufo_frame_result(old(ufos)@[0], bullet0(old(bullets)@))
            &&& (forall|i: int| 1 <= i < old(ufos)@.len() ==> final(ufos)@[i] == old(ufos)@[i])
            &&& (old(bullets)@.len() > 0 ==> final(bullets)@[0] == (Bullet {
                destroyed: old(bullets)@[0].destroyed || ufo_hits_bullet(
                    old(ufos)@[0],
                    bullet0(old(bullets)@),
                ),
                ..old(bullets)@[0]
            }))
            &&& final(game).score == score_plus(
                old(game).score,
                if ufo_hits_bullet(old(ufos)@[0], bullet0(old(bullets)@)) {
                    SCORE_UFO as int
                } else {
                    0int
                },
            )
        },
        final(game).score >= old(game).score,
        final(game).hi_score == old(game).hi_score,
        final(game).lives == old(game).lives,
        final(game).mission == old(game).mission,
        final(game).enemy_speed == old(game).enemy_speed,
{
    if ufos.len() == 0 {
        return ;
    }
    let ghost s0 = ufos@;
    let ghost ob = bullet0(bullets@);
    let mut u = ufos[0];
    u.update_animation();
    u.update();
    let mut hit: bool = false;
    if bullets.len() > 0 {
        if bullets[0].rect().overlaps(&u.rect()) {
            hit = true;
            u.destroyed = true;
            let popped = bullets.pop();
            if let Some(mut b0) = popped {
                b0.destroyed = true;
                bullets.push(b0);
            }
            proof {
                lemma_score_step(old(game).score, SCORE_UFO, 0);
            }
            game.score = game.score.saturating_add(SCORE_UFO);
        }
    }
    proof {
        assert(u == ufo_frame_result(s0[0], ob));
        assert(SCORE_UFO * 1 == SCORE_UFO as int);
    }
    let mut out: Vec<Ufo> = Vec::new();
    out.push(u);
    let mut i: usize = 1;
    while i < ufos.len()
        invariant
            ufos@ == s0,
            1 <= i <= s0.len(),
            out@.len() == i,
            out@[0] == u,
            forall|k: int| 1 <= k < i ==> #[trigger] out@[k] == s0[k],
        decreases s0.len() - i,
    {
        out.push(ufos[i]);
        i = i + 1;
    }
    *ufos = out;
}

/// Fire phase: firing is a no-op while any bullet exists; with no bullet and
/// the fire key held, one fresh bullet spawns just above the player's nose.
pub fn fire_phase(bullets: &mut Vec<Bullet>, player: &Player, shoot: bool)
    requires
        player_inv(*player),
    ensures
        old(bullets)@.len() > 0 ==> final(bullets)@ == old(bullets)@,
        old(bullets)@.len() == 0 && shoot ==> final(bullets)@ == old(bullets)@.push(
            Bullet {
                x: (player.x + BULLET_OFFSET_X) as i64,
                y: player.y,
                destroyed: false,
            },
        ),
        old(bullets)@.len() == 0 && !shoot ==> final(bullets)@ == old(bullets)@,
{
    if shoot && bullets.len() == 0 {
        bullets.push(Bullet::new(player.x + BULLET_OFFSET_X, player.y));
    }
}

/// Bullet phase: the single active bullet, if any, moves up and self-
/// destroys past the top of the screen.
pub fn bullet_phase(bullets: &mut Vec<Bullet>, dt: u32)
    requires
        forall|i: int| 0 <= i < old(bullets)@.len() ==> bullet_inv(#[trigger] old(bullets)@[i]),
        old(bullets)@.len() <= 1,
    ensures
        final(bullets)@.len() == old(bullets)@.len(),
        old(bullets)@.len() > 0 ==> final(bullets)@[0] == crate::bullet::bullet_after(
            old(bullets)@[0],
            dt,
        ),
{
    let popped = bullets.pop();
    if let Some(mut b0) = popped {
        b0.update(dt);
        bullets.push(b0);
    }
}

/// Where an enemy lands this frame: one speed step in the formation
/// direction, defensively clamped to the coordinate range (the clamp is a
/// million pixels off screen and never engages in play).
pub open spec fn enemy_moved_x(e: Enemy, d: Dir, speed: u64) -> int {
    match d {
        Dir::Left => clamp_coord(e.x - speed),
        Dir::Right => clamp_coord(e.x + speed),
    }
}

pub open spec fn enemy_moved(e: Enemy, d: Dir, speed: u64) -> Enemy {
    Enemy { x: enemy_moved_x(e, d, speed) as i64, ..e }
}

/// Whether this member's move crosses the formation bound on its side.
pub open spec fn enemy_crossed(e: Enemy, d: Dir, speed: u64) -> bool {
    match d {
        Dir::Left => enemy_moved_x(e, d, speed) < ENEMY_LEFT_BOUND,
        Dir::Right => enemy_moved_x(e, d, speed) > ENEMY_RIGHT_BOUND,
    }
}

/// Whether any member's move crosses the bound: exactly then the formation
/// flips and pulls down, once for the whole frame.
pub open spec fn formation_crossed(s: Seq<Enemy>, d: Dir, speed: u64) -> bool {
    exists|i: int| 0 <= i < s.len() && enemy_crossed(#[trigger] s[i], d, speed)
}

/// Whether the enemy, once moved, overlaps the active bullet.
pub open spec fn enemy_hits_bullet(e: Enemy, d: Dir, speed: u64, ob: Option<Bullet>) -> bool {
    match ob {
        Some(bl) => rect_overlap(bullet_rect(bl), enemy_rect(enemy_moved(e, d, speed))),
        None => false,
    }
}

/// The trade predicate the formation score counts: whether an enemy, once
/// moved, overlaps the active bullet.
pub open spec fn enemy_bullet_trade(d: Dir, speed: u64, ob: Option<Bullet>) -> spec_fn(Enemy) -> bool {
    |e: Enemy| enemy_hits_bullet(e, d, speed, ob)
}

/// Whether the enemy's bottom edge has passed the player line.
pub open spec fn enemy_reaches_bottom(e: Enemy, p: Player) -> bool {
    e.y + ENEMY_H > p.y
}

/// Whether the enemy, once moved, overlaps the player.
pub open spec fn enemy_hits_player(e: Enemy, d: Dir, speed: u64, p: Player) -> bool {
    rect_overlap(player_rect(p), enemy_rect(enemy_moved(e, d, speed)))
}

/// An enemy ends the game by reaching the player line or touching the player.
pub open spec fn enemy_danger(e: Enemy, d: Dir, speed: u64, p: Player) -> bool {
    enemy_reaches_bottom(e, p) || enemy_hits_player(e, d, speed, p)
}

pub open spec fn any_enemy_danger(s: Seq<Enemy>, d: Dir, speed: u64, p: Player) -> bool {
    exists|i: int| 0 <= i < s.len() && enemy_danger(#[trigger] s[i], d, speed, p)
}

pub open spec fn any_enemy_hits_bullet(s: Seq<Enemy>, d: Dir, speed: u64, ob: Option<Bullet>) -> bool {
    exists|i: int| 0 <= i < s.len() && enemy_hits_bullet(#[trigger] s[i], d, speed, ob)
}

/// An enemy after the formation phase: moved, animated, and destroyed on
/// overlap with the bullet.
pub open spec fn enemy_frame_result(e: Enemy, d: Dir, speed: u64, ob: Option<Bullet>) -> Enemy {
    let m = enemy_moved(e, d, speed);
    let a = Enemy { anim: anim_stepped(m.anim, ENEMY_ANIMATION_SPEED, ENEMY_FRAME_COUNT), ..m };
    Enemy { destroyed: a.destroyed || enemy_hits_bullet(e, d, speed, ob), ..a }
}

/// Formation phase: every enemy slides one speed step in the shared
/// direction and animates; an enemy overlapping the bullet destroys both and
/// scores `SCORE_ENEMY`; an enemy past the player line or touching the
/// player ends the game. Returns whether any member crossed its bound, so
/// the pull-down phase flips the formation exactly once per frame.
#[verifier::loop_isolation(false)]
pub fn enemies_phase(
    enemies: &mut Vec<Enemy>,
    bullets: &mut Vec<Bullet>,
    player: &Player,
    game: &mut Game,
    state: &mut GameState,
    direction: Dir,
) -> (crossed: bool)
    requires
        forall|i: int|
            0 <= i < old(enemies)@.len() ==> {
                &&& -MAX_COORD <= #[trigger] old(enemies)@[i].x <= MAX_COORD
                &&& -MAX_COORD <= old(enemies)@[i].y <= MAX_COORD
                &&& enemy_anim_inv(old(enemies)@[i])
            },
        forall|i: int|
            0 <= i < old(bullets)@.len() ==> rect_in_bounds(
                bullet_rect(#[trigger] old(bullets)@[i]),
            ),
        old(bullets)@.len() <= 1,
        player_inv(*player),
        old(game).enemy_speed <= ENEMY_SPEED_CAP,
    ensures
        final(enemies)@.len() == old(enemies)@.len(),
        forall|i: int|
            0 <= i < old(enemies)@.len() ==> #[trigger] final(enemies)@[i] == enemy_frame_result(
                old(enemies)@[i],
                direction,
                old(game).enemy_speed,
                bullet0(old(bullets)@),
            ),
        crossed == formation_crossed(old(enemies)@, direction, old(game).enemy_speed),
        final(bullets)@.len() == old(bullets)@.len(),
        old(bullets)@.len() > 0 ==> final(bullets)@[0] == (Bullet {
            destroyed: old(bullets)@[0].destroyed || any_enemy_hits_bullet(
                old(enemies)@,
                direction,
                old(game).enemy_speed,
                bullet0(old(bullets)@),
            ),
            ..old(bullets)@[0]
        }),
        final(game).score == score_plus(
            old(game).score,
            SCORE_ENEMY * count_matching(
                old(enemies)@,
                enemy_bullet_trade(direction, old(game).enemy_speed, bullet0(old(bullets)@)),
            ),
        ),
        final(game).score >= old(game).score,
        final(game).hi_score == old(game).hi_score,
        final(game).lives == old(game).lives,
        final(game).mission == old(game).mission,
        final(game).enemy_speed == old(game).enemy_speed,
        *final(state) == (if any_enemy_danger(
            old(enemies)@,
            direction,
            old(game).enemy_speed,
            *player,
        ) {
            GameState::GameOver
        } else {
            *old(state)
        }),
{
    let ghost s0 = enemies@;
    let ghost speed0 = game.enemy_speed;
    let ghost ob = bullet0(bullets@);
    let ghost hits_bullet_pred = enemy_bullet_trade(direction, speed0, ob);
    let sp: i64 = game.enemy_speed as i64;
    let has_bullet: bool = bullets.len() > 0;
    let bullet_rect_now: Rect = if has_bullet {
        bullets[0].rect()
    } else {
        Rect::new(0, 0, 0, 0)
    };
    let player_rect_now: Rect = player.rect();
    let mut crossed: bool = false;
    let mut danger: bool = false;
    let mut hit_bullet: bool = false;
    let mut out: Vec<Enemy> = Vec::new();
    let mut i: usize = 0;
    while i < enemies.len()
        invariant
            enemies@ == s0,
            bullets@ == old(bullets)@,
            game.enemy_speed == speed0,
            i <= s0.len(),
            out@.len() == i,
            forall|k: int|
                0 <= k < i ==> #[trigger] out@[k] == enemy_frame_result(s0[k], direction, speed0, ob),
            crossed == (exists|k: int| 0 <= k < i && enemy_crossed(#[trigger] s0[k], direction, speed0)),
            danger == (exists|k: int|
                0 <= k < i && enemy_danger(#[trigger] s0[k], direction, speed0, *player)),
            hit_bullet == (exists|k: int|
                0 <= k < i && enemy_hits_bullet(#[trigger] s0[k], direction, speed0, ob)),
            game.score == score_plus(
                old(game).score,
                SCORE_ENEMY * count_matching(s0.subrange(0, i as int), hits_bullet_pred),
            ),
            game.hi_score == old(game).hi_score,
            game.lives == old(game).lives,
            game.mission == old(game).mission,
        decreases s0.len() - i,
    {
        proof {
            lemma_count_prefix(s0, hits_bullet_pred, i as int);
            lemma_count_nonneg(s0.subrange(0, i as int), hits_bullet_pred);
        }
        let mut e = enemies[i];
        let raw: i64 = match direction {
            Dir::Left => e.x - sp,
            Dir::Right => e.x + sp,
        };
        e.x = if raw > MAX_COORD {
            MAX_COORD
        } else if raw < -MAX_COORD {
            -MAX_COORD
        } else {
            raw
        };
        let did_cross: bool = match direction {
            Dir::Left => e.x < ENEMY_LEFT_BOUND,
            Dir::Right => e.x > ENEMY_RIGHT_BOUND,
        };
        if did_cross {
            crossed = true;
        }
        e.update_animation();
        if e.y + ENEMY_H > player.y {
            danger = true;
        }
        if has_bullet && bullet_rect_now.overlaps(&e.rect()) {
            e.destroyed = true;
            hit_bullet = true;
            proof {
                lemma_score_step(
                    old(game).score,
                    SCORE_ENEMY,
                    count_matching(s0.subrange(0, i as int), hits_bullet_pred),
                );
            }
            game.score = game.score.saturating_add(SCORE_ENEMY);
        }
        if player_rect_now.overlaps(&e.rect()) {
            danger = true;
        }
        proof {
            assert(e == enemy_frame_result(s0[i as int], direction, speed0, ob));
        }
        out.push(e);
        i = i + 1;
    }
    proof {
        assert(s0.subrange(0, s0.len() as int) =~= s0);
        let c = count_matching(s0, hits_bullet_pred);
        lemma_count_nonneg(s0, hits_bullet_pred);
        assert(SCORE_ENEMY * c >= 0) by (nonlinear_arith)
            requires
                c >= 0,
        ;
    }
    *enemies = out;
    if danger {
        *state = GameState::GameOver;
    }
    if hit_bullet {
        let popped = bullets.pop();
        if let Some(mut b0) = popped {
            b0.destroyed = true;
            bullets.push(b0);
        }
    }
    crossed
}

/// Whether the block overlaps any enemy of the formation.
pub open spec fn block_hits_enemies(b: Block, es: Seq<Enemy>) -> bool {
    exists|i: int| 0 <= i < es.len() && rect_overlap(enemy_rect(#[trigger] es[i]), block_rect(b))
}

/// Whether the block overlaps the active bullet.
pub open spec fn block_hits_bullet(b: Block, ob: Option<Bullet>) -> bool {
    match ob {
        Some(bl) => rect_overlap(bullet_rect(bl), block_rect(b)),
        None => false,
    }
}

/// Whether the block overlaps any bomb.
pub open spec fn block_hits_bombs(b: Block, ms: Seq<Bomb>) -> bool {
    exists|i: int| 0 <= i < ms.len() && rect_overlap(bomb_rect(#[trigger] ms[i]), block_rect(b))
}

/// Whether the bomb overlaps any block.
pub open spec fn bomb_hits_blocks(m: Bomb, bs: Seq<Block>) -> bool {
    exists|j: int| 0 <= j < bs.len() && rect_overlap(bomb_rect(m), block_rect(#[trigger] bs[j]))
}

pub open spec fn any_block_hits_bullet(bs: Seq<Block>, ob: Option<Bullet>) -> bool {
    exists|j: int| 0 <= j < bs.len() && block_hits_bullet(#[trigger] bs[j], ob)
}

/// A block after the block phase: destroyed on any overlap with an enemy,
/// the bullet, or a bomb.
pub open spec fn block_frame_result(b: Block, es: Seq<Enemy>, ob: Option<Bullet>, ms: Seq<Bomb>) -> Block {
    Block {
        destroyed: b.destroyed || block_hits_enemies(b, es) || block_hits_bullet(b, ob)
            || block_hits_bombs(b, ms),
        ..b
    }
}

/// A bomb after the block phase: destroyed if it overlaps any block.
pub open spec fn bomb_block_result(m: Bomb, bs: Seq<Block>) -> Bomb {
    Bomb { destroyed: m.destroyed || bomb_hits_blocks(m, bs), ..m }
}

/// Two block sequences with the same rectangles stop the same bombs.
proof fn lemma_bomb_hits_blocks_same_rects(m: Bomb, a: Seq<Block>, b: Seq<Block>)
    requires
        a.len() == b.len(),
        forall|j: int| 0 <= j < a.len() ==> block_rect(#[trigger] a[j]) == block_rect(b[j]),
    ensures
        bomb_hits_blocks(m, a) == bomb_hits_blocks(m, b),
{
    if bomb_hits_blocks(m, a) {
        let j = choose|j: int| 0 <= j < a.len() && rect_overlap(bomb_rect(m), block_rect(#[trigger] a[j]));
        assert(rect_overlap(bomb_rect(m), block_rect(b[j])));
    }
    if bomb_hits_blocks(m, b) {
        let j = choose|j: int| 0 <= j < b.len() && rect_overlap(bomb_rect(m), block_rect(#[trigger] b[j]));
        assert(rect_overlap(bomb_rect(m), block_rect(a[j])));
    }
}

/// Whether `r` overlaps any enemy's rectangle.
#[verifier::loop_isolation(false)]
fn overlaps_any_enemy(r: &Rect, enemies: &Vec<Enemy>) -> (found: bool)
    requires
        rect_in_bounds(*r),
        forall|i: int|
            0 <= i < enemies@.len() ==> {
                &&& -GEOM_BOUND <= #[trigger] enemies@[i].x <= GEOM_BOUND
                &&& -GEOM_BOUND <= enemies@[i].y <= GEOM_BOUND
            },
    ensures
        found == (exists|i: int|
            0 <= i < enemies@.len() && rect_overlap(enemy_rect(#[trigger] enemies@[i]), *r)),
{
    let mut found: bool = false;
    let mut i: usize = 0;
    while i < enemies.len()
        invariant
            i <= enemies@.len(),
            found == (exists|k: int|
                0 <= k < i && rect_overlap(enemy_rect(#[trigger] enemies@[k]), *r)),
        decreases enemies@.len() - i,
    {
        if enemies[i].rect().overlaps(r) {
            found = true;
        }
        i = i + 1;
    }
    found
}

/// Whether `r` overlaps any bomb's rectangle.
#[verifier::loop_isolation(false)]
fn overlaps_any_bomb(r: &Rect, bombs: &Vec<Bomb>) -> (found: bool)
    requires
        rect_in_bounds(*r),
        forall|i: int| 0 <= i < bombs@.len() ==> rect_in_bounds(bomb_rect(#[trigger] bombs@[i])),
    ensures
        found == (exists|i: int|
            0 <= i < bombs@.len() && rect_overlap(bomb_rect(#[trigger] bombs@[i]), *r)),
{
    let mut found: bool = false;
    let mut i: usize = 0;
    while i < bombs.len()
        invariant
            i <= bombs@.len(),
            found == (exists|k: int|
                0 <= k < i && rect_overlap(bomb_rect(#[trigger] bombs@[k]), *r)),
        decreases bombs@.len() - i,
    {
        if bombs[i].rect().overlaps(r) {
            found = true;
        }
        i = i + 1;
    }
    found
}

/// Whether `r` overlaps any block's rectangle.
#[verifier::loop_isolation(false)]
fn overlaps_any_block(r: &Rect, blocks: &Vec<Block>) -> (found: bool)
    requires
        rect_in_bounds(*r),
        forall|j: int|
            0 <= j < blocks@.len() ==> {
                &&& -GEOM_BOUND <= #[trigger] blocks@[j].x <= GEOM_BOUND
                &&& -GEOM_BOUND <= blocks@[j].y <= GEOM_BOUND
            },
    ensures
        found == (exists|j: int|
            0 <= j < blocks@.len() && rect_overlap(*r, block_rect(#[trigger] blocks@[j]))),
{
    let mut found: bool = false;
    let mut j: usize = 0;
    while j < blocks.len()
        invariant
            j <= blocks@.len(),
            found == (exists|k: int|
                0 <= k < j && rect_overlap(*r, block_rect(#[trigger] blocks@[k]))),
        decreases blocks@.len() - j,
    {
        if r.overlaps(&blocks[j].rect()) {
            found = true;
        }
        j = j + 1;
    }
    found
}

/// Block phase: a block overlapping an enemy, the bullet or a bomb is
/// destroyed; the bullet is destroyed on hitting any block; a bomb is
/// destroyed on hitting any block. Enemies eat through blocks unharmed.
#[verifier::loop_isolation(false)]
pub fn blocks_phase(
    blocks: &mut Vec<Block>,
    enemies: &Vec<Enemy>,
    bullets: &mut Vec<Bullet>,
    bombs: &mut Vec<Bomb>,
)
    requires
        forall|j: int| 0 <= j < old(blocks)@.len() ==> block_inv(#[trigger] old(blocks)@[j]),
        forall|i: int|
            0 <= i < enemies@.len() ==> {
                &&& -MAX_COORD <= #[trigger] enemies@[i].x <= MAX_COORD
                &&& -MAX_COORD <= enemies@[i].y <= MAX_COORD
            },
        forall|i: int|
            0 <= i < old(bullets)@.len() ==> rect_in_bounds(bullet_rect(#[trigger] old(bullets)@[i])),
        forall|i: int|
            0 <= i < old(bombs)@.len() ==> rect_in_bounds(bomb_rect(#[trigger] old(bombs)@[i])),
        old(bullets)@.len() <= 1,
    ensures
        final(blocks)@.len() == old(blocks)@.len(),
        forall|j: int|
            0 <= j < old(blocks)@.len() ==> #[trigger] final(blocks)@[j] == block_frame_result(
                old(blocks)@[j],
                enemies@,
                bullet0(old(bullets)@),
                old(bombs)@,
            ),
        final(bombs)@.len() == old(bombs)@.len(),
        forall|k: int|
            0 <= k < old(bombs)@.len() ==> #[trigger] final(bombs)@[k] == bomb_block_result(
                old(bombs)@[k],
                old(blocks)@,
            ),
        final(bullets)@.len() == old(bullets)@.len(),
        old(bullets)@.len() > 0 ==> final(bullets)@[0] == (Bullet {
            destroyed: old(bullets)@[0].destroyed || any_block_hits_bullet(
                old(blocks)@,
                bullet0(old(bullets)@),
            ),
            ..old(bullets)@[0]
        }),
{
    let ghost blocks0 = blocks@;
    let ghost bombs0 = bombs@;
    let ghost ob = bullet0(bullets@);
    let has_bullet: bool = bullets.len() > 0;
    let bullet_rect_now: Rect = if has_bullet {
        bullets[0].rect()
    } else {
        Rect::new(0, 0, 0, 0)
    };
    let mut hit_bullet: bool = false;
    let mut out: Vec<Block> = Vec::new();
    let mut j: usize = 0;
    while j < blocks.len()
        invariant
            blocks@ == blocks0,
            bombs@ == bombs0,
            bullets@ == old(bullets)@,
            j <= blocks0.len(),
            out@.len() == j,
            forall|k: int|
                0 <= k < j ==> #[trigger] out@[k] == block_frame_result(blocks0[k], enemies@, ob, bombs0),
            hit_bullet == (exists|k: int| 0 <= k < j && block_hits_bullet(#[trigger] blocks0[k], ob)),
        decreases blocks0.len() - j,
    {
        let mut blk = blocks[j];
        let brect = blk.rect();
        let he: bool = overlaps_any_enemy(&brect, enemies);
        let hb: bool = has_bullet && bullet_rect_now.overlaps(&brect);
        let hm: bool = overlaps_any_bomb(&brect, bombs);
        if hb {
            hit_bullet = true;
        }
        if he || hb || hm {
            blk.destroyed = true;
        }
        proof {
            assert(blk == block_frame_result(blocks0[j as int], enemies@, ob, bombs0));
        }
        out.push(blk);
        j = j + 1;
    }
    *blocks = out;
    if hit_bullet {
        let popped = bullets.pop();
        if let Some(mut b0) = popped {
            b0.destroyed = true;
            bullets.push(b0);
        }
    }
    let mut out_bombs: Vec<Bomb> = Vec::new();
    let mut k: usize = 0;
    while k < bombs.len()
        invariant
            bombs@ == bombs0,
            k <= bombs0.len(),
            out_bombs@.len() == k,
            blocks@.len() == blocks0.len(),
            forall|j2: int|
                0 <= j2 < blocks0.len() ==> #[trigger] blocks@[j2] == block_frame_result(
                    blocks0[j2],
                    enemies@,
                    ob,
                    bombs0,
                ),
            forall|k2: int|
                0 <= k2 < k ==> #[trigger] out_bombs@[k2] == bomb_block_result(bombs0[k2], blocks0),
        decreases bombs0.len() - k,
    {
        let mut m = bombs[k];
        let hit: bool = overlaps_any_block(&m.rect(), blocks);
        if hit {
            m.destroyed = true;
        }
        proof {
            assert(forall|j2: int|
                0 <= j2 < blocks0.len() ==> block_rect(#[trigger] blocks@[j2]) == block_rect(
                    blocks0[j2],
                ));
            lemma_bomb_hits_blocks_same_rects(bombs0[k as int], blocks@, blocks0);
            assert(m == bomb_block_result(bombs0[k as int], blocks0));
        }
        out_bombs.push(m);
        k = k + 1;
    }
    *bombs = out_bombs;
}

/// Pull-down phase: when the formation crossed a bound this frame, every
/// member steps down once, the formation speeds up one step, and the shared
/// direction flips — exactly once for the whole frame, never per member.
#[verifier::loop_isolation(false)]
pub fn pulldown_phase(enemies: &mut Vec<Enemy>, game: &mut Game, direction: &mut Dir, crossed: bool)
    requires
        forall|i: int|
            0 <= i < old(enemies)@.len() ==> -MAX_COORD <= #[trigger] old(enemies)@[i].y
                <= MAX_COORD,
        old(game).enemy_speed <= ENEMY_SPEED_CAP,
    ensures
        final(enemies)@.len() == old(enemies)@.len(),
        crossed ==> forall|i: int|
            0 <= i < old(enemies)@.len() ==> #[trigger] final(enemies)@[i] == (Enemy {
                y: (old(enemies)@[i].y + ENEMY_PULL_DOWN) as i64,
                ..old(enemies)@[i]
            }),
        crossed ==> final(game).enemy_speed == bumped_speed(old(game).enemy_speed),
        crossed ==> *final(direction) == crate::flipped(*old(direction)),
        !crossed ==> final(enemies)@ == old(enemies)@ && *final(game) == *old(game)
            && *final(direction) == *old(direction),
        final(game).score == old(game).score,
        final(game).hi_score == old(game).hi_score,
        final(game).lives == old(game).lives,
        final(game).mission == old(game).mission,
        final(game).enemy_speed <= ENEMY_SPEED_CAP,
{
    if !crossed {
        return ;
    }
    let ghost s0 = enemies@;
    let mut out: Vec<Enemy> = Vec::new();
    let mut i: usize = 0;
    while i < enemies.len()
        invariant
            enemies@ == s0,
            i <= s0.len(),
            out@.len() == i,
            forall|k: int|
                0 <= k < i ==> #[trigger] out@[k] == (Enemy {
                    y: (s0[k].y + ENEMY_PULL_DOWN) as i64,
                    ..s0[k]
                }),
        decreases s0.len() - i,
    {
        let mut e = enemies[i];
        e.y = e.y + ENEMY_PULL_DOWN;
        out.push(e);
        i = i + 1;
    }
    *enemies = out;
    game.enemy_speed = crate::game::bump_speed(game.enemy_speed);
    *direction = match *direction {
        Dir::Left => Dir::Right,
        Dir::Right => Dir::Left,
    };
}

/// One animation update for every enemy, as happens on the screens that
/// draw the frozen formation.
#[verifier::loop_isolation(false)]
pub fn step_enemy_anims(enemies: &mut Vec<Enemy>)
    requires
        forall|i: int| 0 <= i < old(enemies)@.len() ==> enemy_anim_inv(#[trigger] old(enemies)@[i]),
    ensures
        final(enemies)@.len() == old(enemies)@.len(),
        forall|i: int|
            0 <= i < old(enemies)@.len() ==> #[trigger] final(enemies)@[i] == (Enemy {
                anim: anim_stepped(old(enemies)@[i].anim, ENEMY_ANIMATION_SPEED, ENEMY_FRAME_COUNT),
                ..old(enemies)@[i]
            }),
{
    let ghost s0 = enemies@;
    let mut out: Vec<Enemy> = Vec::new();
    let mut i: usize = 0;
    while i < enemies.len()
        invariant
            enemies@ == s0,
            i <= s0.len(),
            out@.len() == i,
            forall|k: int|
                0 <= k < i ==> #[trigger] out@[k] == (Enemy {
                    anim: anim_stepped(s0[k].anim, ENEMY_ANIMATION_SPEED, ENEMY_FRAME_COUNT),
                    ..s0[k]
                }),
        decreases s0.len() - i,
    {
        let mut e = enemies[i];
        e.update_animation();
        out.push(e);
        i = i + 1;
    }
    *enemies = out;
}

} // verus!
