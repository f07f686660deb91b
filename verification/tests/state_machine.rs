use space_invaders::bomb::{Bomb, BombKind};
use space_invaders::block::Block;
use space_invaders::bullet::Bullet;
use space_invaders::enemy::{Enemy, EnemyKind};
use space_invaders::game::{bump_speed, speed_for_mission};
use space_invaders::machine::{Draws, World};
use space_invaders::ufo::Ufo;
use space_invaders::{Dir, GameState, Input};

fn idle() -> Input {
    Input { left: false, right: false, shoot: false, confirm: false }
}

fn confirm() -> Input {
    Input { confirm: true, ..idle() }
}

fn shoot() -> Input {
    Input { shoot: true, ..idle() }
}

fn draws0() -> Draws {
    Draws { ufo_side: Dir::Left, bomb_delay_ms: 0, bomb_kind: BombKind::A, bomb_enemy_index: 0 }
}

/// A world in the playing state with an empty field: no enemies, blocks,
/// bombs or saucers, three lives, first-mission speed.
fn playing_world() -> World {
    let mut w = World::new(0, 64_000, 30_000);
    w.state = GameState::Game;
    w.game.lives = 3;
    w.game.mission = 1;
    w.game.enemy_speed = 400;
    w.enemies.clear();
    w.blocks.clear();
    w
}

#[test]
fn intro_confirm_starts_a_level() {
    let mut w = World::new(0, 64_000, 30_000);
    assert_eq!(w.state, GameState::Intro);
    w.step(idle(), 0, 16, draws0());
    assert_eq!(w.state, GameState::Intro);
    w.step(confirm(), 0, 16, draws0());
    assert_eq!(w.state, GameState::InitLevel);
    assert_eq!(w.game.lives, 3);
    assert_eq!(w.game.mission, 1);
    assert_eq!(w.game.enemy_speed, 400);
    w.step(confirm(), 5, 16, draws0());
    assert_eq!(w.state, GameState::Game);
    assert_eq!(w.bomb_last_time, 5);
    assert_eq!(w.player.x, 320_000);
}

#[test]
fn fire_is_noop_while_bullet_lives() {
    let mut w = playing_world();
    w.enemies.push(Enemy::new(80_000, 80_000, EnemyKind::E));
    w.step(shoot(), 0, 0, draws0());
    assert_eq!(w.bullets.len(), 1);
    let first_x = w.bullets[0].x;
    assert_eq!(first_x, 352_000); // player nose: 320 + 32 pixels
    // Move the player, hold fire: if a second bullet were accepted it would
    // spawn at the new x.
    let right_and_shoot = Input { right: true, ..shoot() };
    w.step(right_and_shoot, 0, 0, draws0());
    assert_eq!(w.bullets.len(), 1);
    assert_eq!(w.bullets[0].x, first_x);
}

#[test]
fn firing_succeeds_again_after_bullet_collected() {
    let mut w = playing_world();
    w.enemies.push(Enemy::new(80_000, 80_000, EnemyKind::E));
    w.bullets.push(Bullet::new(352_000, 200));
    // One millisecond climbs 300 milli-pixels: the bullet leaves the top,
    // is flagged, and the same frame's collection pass removes it.
    w.step(idle(), 0, 1, draws0());
    assert_eq!(w.bullets.len(), 0);
    w.step(shoot(), 0, 0, draws0());
    assert_eq!(w.bullets.len(), 1);
}

#[test]
fn bomb_hit_with_lives_fails_level_and_destroys_bomb() {
    let mut w = playing_world();
    w.enemies.push(Enemy::new(80_000, 80_000, EnemyKind::E));
    w.bombs.push(Bomb::new(330_000, 479_000, BombKind::A));
    w.step(idle(), 0, 0, draws0());
    assert_eq!(w.state, GameState::LevelFail);
    assert_eq!(w.bombs.len(), 0); // destroyed and collected
    assert_eq!(w.game.lives, 3); // the life is spent on confirm
}

#[test]
fn bomb_hit_without_lives_is_game_over() {
    let mut w = playing_world();
    w.game.lives = 0;
    w.enemies.push(Enemy::new(80_000, 80_000, EnemyKind::E));
    w.bombs.push(Bomb::new(330_000, 479_000, BombKind::A));
    w.step(idle(), 0, 0, draws0());
    assert_eq!(w.state, GameState::GameOver);
    assert_eq!(w.bombs.len(), 0);
}

#[test]
fn level_fail_confirm_spends_a_life_and_resumes() {
    let mut w = playing_world();
    w.enemies.push(Enemy::new(80_000, 80_000, EnemyKind::E));
    w.state = GameState::LevelFail;
    w.bullets.push(Bullet::new(352_000, 200_000));
    w.bombs.push(Bomb::new(100_000, 100_000, BombKind::B));
    w.ufos.push(Ufo::new(Dir::Left));
    w.player.x = 100_000;
    w.step(confirm(), 0, 0, draws0());
    assert_eq!(w.state, GameState::Game);
    assert_eq!(w.game.lives, 2);
    assert_eq!(w.player.x, 320_000);
    assert_eq!(w.bullets.len(), 0);
    assert_eq!(w.bombs.len(), 0);
    assert_eq!(w.ufos.len(), 0);
    assert_eq!(w.enemies.len(), 1); // the formation is kept
}

#[test]
fn bullet_kill_scores_and_clearing_formation_completes_level() {
    let mut w = playing_world();
    // One enemy left; the formation moves left by 400 this frame.
    w.enemies.push(Enemy::new(100_000, 100_000, EnemyKind::E));
    w.bullets.push(Bullet::new(100_000, 101_000));
    w.step(idle(), 0, 0, draws0());
    // Kill happened this frame; the empty-formation check saw the flagged
    // enemy still in its slot, so completion comes on the next evaluation.
    assert_eq!(w.game.score, 10);
    assert_eq!(w.game.hi_score, 10);
    assert_eq!(w.enemies.len(), 0);
    assert_eq!(w.bullets.len(), 0);
    assert_eq!(w.state, GameState::Game);
    w.step(idle(), 0, 0, draws0());
    assert_eq!(w.state, GameState::LevelCompleted);
    // Confirming regenerates the field one mission harder.
    w.step(confirm(), 0, 0, draws0());
    assert_eq!(w.state, GameState::InitLevel);
    assert_eq!(w.game.mission, 2);
    assert_eq!(w.game.enemy_speed, 800); // 400 + 200 * mission
    assert_eq!(w.enemies.len(), 24);
    assert_eq!(w.blocks.len(), 198);
    assert_eq!(w.game.score, 10); // score survives mission advance
}

#[test]
fn formation_flips_once_per_frame_and_pulls_down() {
    let mut w = playing_world();
    w.game.enemy_speed = 2_000;
    w.enemy_direction = Dir::Right;
    w.enemies.push(Enemy::new(649_000, 100_000, EnemyKind::E));
    w.enemies.push(Enemy::new(200_000, 100_000, EnemyKind::A));
    w.step(idle(), 0, 0, draws0());
    // The first member crossed 650: every member moved right, then the whole
    // formation stepped down once, sped up one step, and the direction
    // flipped exactly once.
    assert_eq!(w.enemies[0].x, 651_000);
    assert_eq!(w.enemies[1].x, 202_000);
    assert_eq!(w.enemies[0].y, 110_000);
    assert_eq!(w.enemies[1].y, 110_000);
    assert_eq!(w.game.enemy_speed, 2_200);
    assert_eq!(w.enemy_direction, Dir::Left);
    assert_eq!(w.state, GameState::Game);
}

#[test]
fn formation_flips_at_left_bound() {
    let mut w = playing_world();
    w.game.enemy_speed = 2_000;
    w.enemy_direction = Dir::Left;
    w.enemies.push(Enemy::new(1_000, 100_000, EnemyKind::E));
    w.step(idle(), 0, 0, draws0());
    assert_eq!(w.enemies[0].x, -1_000);
    assert_eq!(w.enemies[0].y, 110_000);
    assert_eq!(w.enemy_direction, Dir::Right);
}

#[test]
fn no_flip_away_from_bounds() {
    let mut w = playing_world();
    w.enemies.push(Enemy::new(300_000, 100_000, EnemyKind::E));
    w.step(idle(), 0, 0, draws0());
    assert_eq!(w.enemies[0].x, 299_600);
    assert_eq!(w.enemies[0].y, 100_000);
    assert_eq!(w.game.enemy_speed, 400);
    assert_eq!(w.enemy_direction, Dir::Left);
}

#[test]
fn enemy_reaching_player_line_ends_game() {
    let mut w = playing_world();
    w.enemies.push(Enemy::new(100_000, 451_000, EnemyKind::B));
    w.step(idle(), 0, 0, draws0());
    assert_eq!(w.state, GameState::GameOver);
}

#[test]
fn hi_score_is_non_decreasing() {
    let mut w = playing_world();
    w.game.score = 150;
    w.game.hi_score = 150;
    // Shoot down a bomb: +5.
    w.bullets.push(Bullet::new(100_000, 100_000));
    w.bombs.push(Bomb::new(101_000, 101_000, BombKind::A));
    w.enemies.push(Enemy::new(500_000, 80_000, EnemyKind::E));
    w.step(idle(), 0, 0, draws0());
    assert_eq!(w.game.score, 155);
    assert_eq!(w.game.hi_score, 155);
    let hi = w.game.hi_score;
    // A fresh game keeps the high score while the score resets.
    w.state = GameState::GameOver;
    w.step(confirm(), 0, 0, draws0());
    assert_eq!(w.game.score, 0);
    assert_eq!(w.game.hi_score, hi);
    assert_eq!(w.state, GameState::InitLevel);
    assert_eq!(w.game.lives, 3);
    assert_eq!(w.game.mission, 1);
    assert_eq!(w.enemies.len(), 24);
    assert_eq!(w.blocks.len(), 198);
}

#[test]
fn bonus_life_granted_once_per_threshold() {
    let mut w = playing_world();
    w.game.score = 995;
    w.game.hi_score = 995;
    // Kill an enemy: +10 crosses 1000.
    w.enemies.push(Enemy::new(100_000, 100_000, EnemyKind::E));
    w.bullets.push(Bullet::new(100_000, 101_000));
    w.step(idle(), 0, 0, draws0());
    assert_eq!(w.game.score, 1005);
    assert_eq!(w.game.lives, 4);
    assert_eq!(w.next_bonus_at, 2000);
    // More points above the same threshold grant nothing new.
    w.enemies.push(Enemy::new(100_000, 100_000, EnemyKind::E));
    w.step(shoot(), 0, 0, draws0());
    w.step(idle(), 0, 0, draws0());
    assert!(w.game.score >= 1005);
    assert_eq!(w.game.lives, 4);
    assert_eq!(w.next_bonus_at, 2000);
}

#[test]
fn saucer_spawns_on_its_timer_and_scores_big() {
    let mut w = playing_world();
    w.enemies.push(Enemy::new(500_000, 80_000, EnemyKind::E));
    // Timer not yet passed: no saucer.
    w.step(idle(), 7_000, 0, draws0());
    assert_eq!(w.ufos.len(), 0);
    // Timer passed: one saucer from the drawn side.
    w.step(idle(), 7_001, 0, draws0());
    assert_eq!(w.ufos.len(), 1);
    assert_eq!(w.ufo_last_time, 7_001);
    assert_eq!(w.ufos[0].x, -197_000); // left spawn, already one step in
    // Park a saucer over the bullet: both die, +100.
    w.ufos.clear();
    let mut u = Ufo::new(Dir::Left);
    u.x = 300_000;
    w.ufos.push(u);
    w.bullets.push(Bullet::new(320_000, 15_000));
    w.step(idle(), 7_001, 0, draws0());
    assert_eq!(w.game.score, 100);
    assert_eq!(w.ufos.len(), 0);
    assert_eq!(w.bullets.len(), 0);
}

#[test]
fn bomb_spawner_uses_floor_plus_random_delay() {
    let mut w = playing_world();
    w.enemies.push(Enemy::new(200_000, 130_000, EnemyKind::A));
    // Elapsed 50 s beats the 0.6 s floor plus any drawn delay (at most 40 s),
    // so one bomb drops from the only enemy. This runs the real generator.
    w.frame(idle(), 50_000, 0);
    assert_eq!(w.bombs.len(), 1);
    assert_eq!(w.bombs[0].x, 225_000); // dropped before the formation moved
    assert_eq!(w.bombs[0].y, 166_000);
    assert_eq!(w.bomb_last_time, 50_000);
    // Immediately after, the floor blocks the next bomb.
    w.frame(idle(), 50_100, 0);
    assert_eq!(w.bombs.len(), 1);
}

#[test]
fn spawned_bomb_comes_from_the_drawn_enemy() {
    let mut w = playing_world();
    w.enemies.push(Enemy::new(100_000, 80_000, EnemyKind::E));
    w.enemies.push(Enemy::new(300_000, 130_000, EnemyKind::A));
    // The floor (600 ms) plus the drawn delay (700 ms) has passed: the drawn
    // enemy (index 1) drops a bomb of the drawn kind at its position plus
    // the fixed (25, 36) pixel offset.
    let d = Draws {
        ufo_side: Dir::Right,
        bomb_delay_ms: 700,
        bomb_kind: BombKind::B,
        bomb_enemy_index: 1,
    };
    w.step(idle(), 1_301, 0, d);
    assert_eq!(w.bombs.len(), 1);
    assert_eq!(w.bombs[0].x, 325_000);
    assert_eq!(w.bombs[0].y, 166_000);
    assert_eq!(w.bombs[0].kind, BombKind::B);
    assert_eq!(w.bomb_last_time, 1_301);
    // One millisecond short of floor plus delay: no bomb.
    let mut w2 = playing_world();
    w2.enemies.push(Enemy::new(100_000, 80_000, EnemyKind::E));
    w2.step(idle(), 1_300, 0, Draws { bomb_delay_ms: 700, ..d });
    assert_eq!(w2.bombs.len(), 0);
    assert_eq!(w2.bomb_last_time, 0);
}

#[test]
fn spawned_saucer_enters_from_the_drawn_side() {
    let mut w = playing_world();
    w.enemies.push(Enemy::new(100_000, 80_000, EnemyKind::E));
    let d = Draws { ufo_side: Dir::Right, ..draws0() };
    w.step(idle(), 7_001, 0, d);
    assert_eq!(w.ufos.len(), 1);
    assert_eq!(w.ufos[0].side, Dir::Right);
    assert_eq!(w.ufos[0].x, 697_000); // right spawn, one step towards the left
    assert_eq!(w.ufos[0].y, 10_000);
}

#[test]
fn bomb_and_bullet_destroy_each_other() {
    let mut w = playing_world();
    w.enemies.push(Enemy::new(500_000, 80_000, EnemyKind::E));
    w.bullets.push(Bullet::new(100_000, 100_000));
    w.bombs.push(Bomb::new(101_000, 101_000, BombKind::B));
    w.step(idle(), 0, 0, draws0());
    assert_eq!(w.game.score, 5);
    assert_eq!(w.bombs.len(), 0);
    assert_eq!(w.bullets.len(), 0);
}

#[test]
fn blocks_absorb_bombs_and_enemies_eat_through() {
    let mut w = playing_world();
    // A bomb on a block: both die.
    w.blocks.push(Block::new(400_000, 420_000));
    w.bombs.push(Bomb::new(401_000, 421_000, BombKind::A));
    // An enemy over another block: the block dies, the enemy survives.
    w.blocks.push(Block::new(200_000, 100_000));
    w.enemies.push(Enemy::new(199_000, 95_000, EnemyKind::E));
    w.step(idle(), 0, 0, draws0());
    assert_eq!(w.blocks.len(), 0);
    assert_eq!(w.bombs.len(), 0);
    assert_eq!(w.enemies.len(), 1);
    assert_eq!(w.game.score, 0);
}

#[test]
fn bullet_hits_block_and_both_die() {
    let mut w = playing_world();
    w.enemies.push(Enemy::new(500_000, 80_000, EnemyKind::E));
    w.blocks.push(Block::new(352_000, 400_000));
    w.bullets.push(Bullet::new(353_000, 405_000));
    w.step(idle(), 0, 0, draws0());
    assert_eq!(w.blocks.len(), 0);
    assert_eq!(w.bullets.len(), 0);
    assert_eq!(w.game.score, 0); // blocks are worth nothing
}

#[test]
fn paused_state_does_nothing() {
    let mut w = playing_world();
    w.state = GameState::Paused;
    w.enemies.push(Enemy::new(100_000, 100_000, EnemyKind::E));
    w.step(confirm(), 0, 0, draws0());
    assert_eq!(w.state, GameState::Paused);
    assert_eq!(w.enemies[0].x, 100_000);
}

#[test]
fn speed_formula_and_pulldown_bump() {
    assert_eq!(speed_for_mission(1), 600);
    assert_eq!(speed_for_mission(3), 1_000);
    assert_eq!(bump_speed(400), 600);
}

#[test]
fn destroyed_entities_never_survive_a_frame() {
    let mut w = playing_world();
    w.enemies.push(Enemy::new(100_000, 100_000, EnemyKind::E));
    w.bullets.push(Bullet::new(100_000, 101_000));
    w.bombs.push(Bomb::new(600_000, 499_900, BombKind::A));
    w.step(idle(), 0, 1, draws0());
    // The enemy and bullet traded, the bomb fell below the floor: the frame
    // ends with every flagged entity gone from its collection.
    assert!(w.enemies.iter().all(|e| !e.destroyed));
    assert!(w.bullets.iter().all(|b| !b.destroyed));
    assert!(w.bombs.iter().all(|b| !b.destroyed));
    assert_eq!(w.enemies.len(), 0);
    assert_eq!(w.bullets.len(), 0);
    assert_eq!(w.bombs.len(), 0);
}
