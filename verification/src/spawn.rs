//! Level layout: the fixed block grid and the enemy formation, regenerated
//! identically at every mission start.
//!
//! Blocks form three horizontal clusters, each an 11 by 6 grid of 10x10
//! squares. Enemies form three rows of eight, 70 pixels apart, one sprite
//! kind and y offset per row.

use vstd::prelude::*;
use vstd::arithmetic::div_mod::lemma_fundamental_div_mod_converse;
use crate::block::Block;
use crate::enemy::{Enemy, EnemyKind};
use crate::anim::Anim;

verus! {

/// Blocks per cluster row.
pub const BLOCK_COLS: usize = 11;

/// Clusters across the screen.
pub const BLOCK_CLUSTERS: usize = 3;

/// Rows of blocks in each cluster.
pub const BLOCK_ROWS: usize = 6;

/// Total blocks in a fresh layout.
pub const BLOCK_COUNT: usize = 198;

/// Enemies per row.
pub const ENEMY_COLS: usize = 8;

/// Rows of enemies.
pub const ENEMY_ROWS: usize = 3;

/// Total enemies in a fresh formation.
pub const ENEMY_COUNT: usize = 24;

/// The x coordinate of the `k`-th block, row-major: within a row, cluster
/// `(k % 33) / 11` starting at 100, 300 or 500 pixels, column `k % 11`
/// spaced 10 pixels.
pub open spec fn block_spawn_x(k: int) -> int {
    (10 + 20 * ((k % 33) / 11) + (k % 33) % 11) * 10_000
}

/// The y coordinate of the `k`-th block: row `k / 33`, rows at 400 to 450
/// pixels, 10 pixels apart.
pub open spec fn block_spawn_y(k: int) -> int {
    (40 + k / 33) * 10_000
}

/// The x coordinate of the `k`-th enemy: column `k % 8`, from 80 pixels,
/// 70 pixels apart.
pub open spec fn enemy_spawn_x(k: int) -> int {
    80_000 + 70_000 * (k % 8)
}

/// The y coordinate of the `k`-th enemy: row `k / 8`, rows at 80, 130 and
/// 180 pixels.
pub open spec fn enemy_spawn_y(k: int) -> int {
    80_000 + 50_000 * (k / 8)
}

/// The sprite kind of the `k`-th enemy, one kind per row.
pub open spec fn enemy_spawn_kind(k: int) -> EnemyKind {
    if k / 8 == 0 {
        EnemyKind::E
    } else if k / 8 == 1 {
        EnemyKind::A
    } else {
        EnemyKind::B
    }
}

/// A fresh enemy as the formation spawner lays it out.
pub open spec fn spawned_enemy(k: int) -> Enemy {
    Enemy {
        x: enemy_spawn_x(k) as i64,
        y: enemy_spawn_y(k) as i64,
        kind: enemy_spawn_kind(k),
        anim: Anim { interval: 0u32, frame: 0usize },
        destroyed: false,
    }
}

/// A fresh block layout is exactly this sequence of blocks.
pub open spec fn blocks_layout_ok(s: Seq<Block>) -> bool {
    &&& s.len() == BLOCK_COUNT
    &&& forall|k: int| 0 <= k < s.len() ==> #[trigger] s[k] == (Block {
        x: block_spawn_x(k) as i64,
        y: block_spawn_y(k) as i64,
        destroyed: false,
    })
}

/// A fresh enemy formation is exactly this sequence of enemies.
pub open spec fn enemies_layout_ok(s: Seq<Enemy>) -> bool {
    &&& s.len() == ENEMY_COUNT
    &&& forall|k: int| 0 <= k < s.len() ==> #[trigger] s[k] == spawned_enemy(k)
}

/// Fresh layouts sit inside the play field: every spawned enemy and block is
/// live, at its grid position, with a fresh animation state.
pub proof fn lemma_layouts_in_bounds(es: Seq<Enemy>, bs: Seq<Block>)
    requires
        enemies_layout_ok(es),
        blocks_layout_ok(bs),
    ensures
        forall|i: int|
            0 <= i < es.len() ==> {
                &&& !(#[trigger] es[i]).destroyed
                &&& 80_000 <= es[i].x <= 570_000
                &&& 80_000 <= es[i].y <= 180_000
                &&& es[i].anim == (Anim { interval: 0u32, frame: 0usize })
            },
        forall|j: int|
            0 <= j < bs.len() ==> {
                &&& !(#[trigger] bs[j]).destroyed
                &&& 100_000 <= bs[j].x <= 600_000
                &&& 400_000 <= bs[j].y <= 450_000
            },
{
    assert forall|i: int| 0 <= i < es.len() implies {
        &&& !(#[trigger] es[i]).destroyed
        &&& 80_000 <= es[i].x <= 570_000
        &&& 80_000 <= es[i].y <= 180_000
        &&& es[i].anim == (Anim { interval: 0u32, frame: 0usize })
    } by {
        assert(es[i] == spawned_enemy(i));
        assert(0 <= i % 8 < 8);
        assert(8 * (i / 8) + i % 8 == i);
        assert(0 <= i / 8 <= 2);
    }
    assert forall|j: int| 0 <= j < bs.len() implies {
        &&& !(#[trigger] bs[j]).destroyed
        &&& 100_000 <= bs[j].x <= 600_000
        &&& 400_000 <= bs[j].y <= 450_000
    } by {
        assert(bs[j] == (Block {
            x: block_spawn_x(j) as i64,
            y: block_spawn_y(j) as i64,
            destroyed: false,
        }));
        let m = j % 33;
        assert(0 <= m < 33);
        assert(33 * (j / 33) + m == j);
        assert(0 <= j / 33 <= 5);
        assert(0 <= m % 11 < 11);
        assert(11 * (m / 11) + m % 11 == m);
        assert(0 <= m / 11 <= 2);
    }
}

/// Builds the fixed block grid: three clusters of 11 by 6 blocks at fixed
/// screen coordinates, none destroyed.
pub fn make_blocks_array() -> (blocks: Vec<Block>)
    ensures
        blocks_layout_ok(blocks@),
{
    let mut blocks: Vec<Block> = Vec::new();
    let mut row: usize = 0;
    while row < BLOCK_ROWS
        invariant
            row <= BLOCK_ROWS,
            blocks@.len() == row * 33,
            forall|k: int| 0 <= k < blocks@.len() ==> #[trigger] blocks@[k] == (Block {
                x: block_spawn_x(k) as i64,
                y: block_spawn_y(k) as i64,
                destroyed: false,
            }),
        decreases BLOCK_ROWS - row,
    {
        let mut cluster: usize = 0;
        while cluster < BLOCK_CLUSTERS
            invariant
                row < BLOCK_ROWS,
                cluster <= BLOCK_CLUSTERS,
                blocks@.len() == row * 33 + cluster * 11,
                forall|k: int| 0 <= k < blocks@.len() ==> #[trigger] blocks@[k] == (Block {
                    x: block_spawn_x(k) as i64,
                    y: block_spawn_y(k) as i64,
                    destroyed: false,
                }),
            decreases BLOCK_CLUSTERS - cluster,
        {
            let mut col: usize = 0;
            while col < BLOCK_COLS
                invariant
                    row < BLOCK_ROWS,
                    cluster < BLOCK_CLUSTERS,
                    col <= BLOCK_COLS,
                    blocks@.len() == row * 33 + cluster * 11 + col,
                    forall|k: int| 0 <= k < blocks@.len() ==> #[trigger] blocks@[k] == (Block {
                        x: block_spawn_x(k) as i64,
                        y: block_spawn_y(k) as i64,
                        destroyed: false,
                    }),
                decreases BLOCK_COLS - col,
            {
                let x: i64 = (100_000 + 200_000 * (cluster as i64)) + 10_000 * (col as i64);
                let y: i64 = 400_000 + 10_000 * (row as i64);
                proof {
                    let k = row * 33 + cluster * 11 + col;
                    lemma_fundamental_div_mod_converse(k as int, 33, row as int, (cluster * 11 + col) as int);
                    lemma_fundamental_div_mod_converse((cluster * 11 + col) as int, 11, cluster as int, col as int);
                    assert(x == block_spawn_x(k as int));
                    assert(y == block_spawn_y(k as int));
                }
                blocks.push(Block::new(x, y));
                col = col + 1;
            }
            cluster = cluster + 1;
        }
        row = row + 1;
    }
    blocks
}

/// Builds the fixed enemy formation: three rows of eight enemies, one
/// sprite kind and y offset per row, none destroyed.
pub fn make_enemies_array() -> (enemies: Vec<Enemy>)
    ensures
        enemies_layout_ok(enemies@),
{
    let mut enemies: Vec<Enemy> = Vec::new();
    let mut row: usize = 0;
    while row < ENEMY_ROWS
        invariant
            row <= ENEMY_ROWS,
            enemies@.len() == row * 8,
            forall|k: int| 0 <= k < enemies@.len() ==> #[trigger] enemies@[k] == spawned_enemy(k),
        decreases ENEMY_ROWS - row,
    {
        let kind: EnemyKind = if row == 0 {
            EnemyKind::E
        } else if row == 1 {
            EnemyKind::A
        } else {
            EnemyKind::B
        };
        let mut col: usize = 0;
        while col < ENEMY_COLS
            invariant
                row < ENEMY_ROWS,
                col <= ENEMY_COLS,
                kind == (if row == 0 {
                    EnemyKind::E
                } else if row == 1 {
                    EnemyKind::A
                } else {
                    EnemyKind::B
                }),
                enemies@.len() == row * 8 + col,
                forall|k: int| 0 <= k < enemies@.len() ==> #[trigger] enemies@[k] == spawned_enemy(k),
            decreases ENEMY_COLS - col,
        {
            let x: i64 = 80_000 + 70_000 * (col as i64);
            let y: i64 = 80_000 + 50_000 * (row as i64);
            proof {
                let k = row * 8 + col;
                lemma_fundamental_div_mod_converse(k as int, 8, row as int, col as int);
                assert(x == enemy_spawn_x(k as int));
                assert(y == enemy_spawn_y(k as int));
            }
            enemies.push(Enemy::new(x, y, kind));
            col = col + 1;
        }
        row = row + 1;
    }
    enemies
}

} // verus!
