use space_invaders::anim::Anim;
use space_invaders::block::Block;
use space_invaders::bomb::{Bomb, BombKind};
use space_invaders::bullet::Bullet;
use space_invaders::enemy::{Enemy, EnemyKind};
use space_invaders::gc::sweep_blocks;
use space_invaders::geom::Rect;
use space_invaders::player::Player;
use space_invaders::spawn::{make_blocks_array, make_enemies_array};
use space_invaders::ufo::Ufo;
use space_invaders::Dir;

#[test]
fn rect_overlap_needs_interior() {
    let a = Rect::new(0, 0, 10_000, 10_000);
    let touching = Rect::new(10_000, 0, 10_000, 10_000);
    let overlapping = Rect::new(9_999, 0, 10_000, 10_000);
    let apart = Rect::new(50_000, 50_000, 10_000, 10_000);
    assert!(!a.overlaps(&touching));
    assert!(a.overlaps(&overlapping));
    assert!(!a.overlaps(&apart));
    assert!(a.overlaps(&a));
}

#[test]
fn bullet_destroyed_exactly_when_top_reached() {
    // Climbing to y == 0 is still on screen; the first frame below it sets
    // the flag.
    let mut b = Bullet::new(100_000, 30_000);
    b.update(100); // climbs 30_000 milli-pixels
    assert_eq!(b.y, 0);
    assert!(!b.destroyed);
    b.update(1);
    assert_eq!(b.y, -300);
    assert!(b.destroyed);
}

#[test]
fn bomb_destroyed_below_floor() {
    let mut m = Bomb::new(100_000, 499_000, BombKind::A);
    m.update(3); // falls 900
    assert_eq!(m.y, 499_900);
    assert!(!m.destroyed);
    m.update(1);
    assert_eq!(m.y, 500_200);
    assert!(m.destroyed);
}

#[test]
fn bomb_animation_wraps() {
    let mut m = Bomb::new(0, 0, BombKind::B);
    for _ in 0..9 {
        m.update_animation();
        assert_eq!(m.anim.frame, 0);
    }
    assert_eq!(m.anim.interval, 9);
    m.update_animation(); // passes the threshold of 9
    assert_eq!(m.anim.interval, 0);
    assert_eq!(m.anim.frame, 1);
    for _ in 0..10 {
        m.update_animation();
    }
    assert_eq!(m.anim.frame, 0); // wrapped past the two frames
}

#[test]
fn enemy_animation_threshold_is_eleven() {
    let mut e = Enemy::new(0, 0, EnemyKind::E);
    for _ in 0..11 {
        e.update_animation();
        assert_eq!(e.anim.frame, 0);
    }
    e.update_animation();
    assert_eq!(e.anim.frame, 1);
}

#[test]
fn ufo_flies_and_exits_far_side() {
    let mut left = Ufo::new(Dir::Left);
    assert_eq!(left.x, -200_000);
    left.update();
    assert_eq!(left.x, -197_000);
    assert!(!left.destroyed);
    left.x = 699_000;
    left.update();
    assert_eq!(left.x, 702_000);
    assert!(left.destroyed);

    let mut right = Ufo::new(Dir::Right);
    assert_eq!(right.x, 700_000);
    right.update();
    assert_eq!(right.x, 697_000);
    assert!(!right.destroyed);
    right.x = -98_000;
    right.update();
    assert_eq!(right.x, -101_000);
    assert!(right.destroyed);
}

#[test]
fn ufo_animation_threshold_and_five_frames() {
    let mut u = Ufo::new(Dir::Left);
    for cycle in 0..5 {
        assert_eq!(u.anim.frame, cycle);
        for _ in 0..8 {
            u.update_animation();
        }
    }
    assert_eq!(u.anim.frame, 0); // wrapped past the five frames
}

#[test]
fn player_moves_within_bounds() {
    let mut p = Player::new(64_000, 30_000);
    assert_eq!(p.x, 320_000);
    p.update(true, false);
    assert_eq!(p.x, 316_000);
    p.update(false, true);
    assert_eq!(p.x, 320_000);
    p.x = 0;
    p.update(true, false); // at the left bound: no move
    assert_eq!(p.x, 0);
    p.x = 630_000;
    p.update(false, true); // at the right bound: no move
    assert_eq!(p.x, 630_000);
    p.update(true, true); // both keys held: net zero inside the field
    assert_eq!(p.x, 630_000);
}

#[test]
fn blocks_layout_is_three_clusters() {
    let blocks = make_blocks_array();
    assert_eq!(blocks.len(), 198);
    assert_eq!((blocks[0].x, blocks[0].y), (100_000, 400_000));
    assert_eq!((blocks[10].x, blocks[10].y), (200_000, 400_000));
    assert_eq!((blocks[11].x, blocks[11].y), (300_000, 400_000));
    assert_eq!((blocks[22].x, blocks[22].y), (500_000, 400_000));
    assert_eq!((blocks[197].x, blocks[197].y), (600_000, 450_000));
    assert!(blocks.iter().all(|b| !b.destroyed));
}

#[test]
fn enemies_layout_is_three_rows_of_eight() {
    let enemies = make_enemies_array();
    assert_eq!(enemies.len(), 24);
    assert_eq!((enemies[0].x, enemies[0].y), (80_000, 80_000));
    assert_eq!(enemies[0].kind, EnemyKind::E);
    assert_eq!((enemies[7].x, enemies[7].y), (570_000, 80_000));
    assert_eq!((enemies[8].x, enemies[8].y), (80_000, 130_000));
    assert_eq!(enemies[8].kind, EnemyKind::A);
    assert_eq!((enemies[23].x, enemies[23].y), (570_000, 180_000));
    assert_eq!(enemies[23].kind, EnemyKind::B);
    assert!(enemies.iter().all(|e| !e.destroyed));
}

#[test]
fn gc_removes_all_flagged_and_keeps_order() {
    let mut v = vec![Block::new(1, 0), Block::new(2, 0), Block::new(3, 0), Block::new(4, 0)];
    v[1].destroyed = true;
    v[3].destroyed = true;
    sweep_blocks(&mut v);
    assert_eq!(v.len(), 2);
    assert_eq!(v[0].x, 1);
    assert_eq!(v[1].x, 3);
    assert!(v.iter().all(|b| !b.destroyed));
}
