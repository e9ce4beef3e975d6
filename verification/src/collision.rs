//! The collision system: bullets that left the viewport are removed, then
//! enemies and bullets that overlap are removed in pairs.

use vstd::prelude::*;
use crate::components::{Bullet, Enemy, BULLET_HALF_EXTENT, ENEMY_HALF_EXTENT};
use crate::geometry::{Point, Viewport, UNIT};
use crate::resources::GameData;

verus! {

/// Whether two axis-aligned squares share inner points: one centred on `a`
/// with half side `a_half`, the other centred on `b` with half side `b_half`.
pub open spec fn boxes_overlap(a: Point, a_half: int, b: Point, b_half: int) -> bool {
    &&& a.x - a_half < b.x + b_half
    &&& a.x + a_half > b.x - b_half
    &&& a.y - a_half < b.y + b_half
    &&& a.y + a_half > b.y - b_half
}

/// Whether the bounding boxes of an enemy and a bullet overlap.
pub open spec fn spec_collides(enemy: Enemy, bullet: Bullet) -> bool {
    boxes_overlap(enemy.position, ENEMY_HALF_EXTENT as int, bullet.position, BULLET_HALF_EXTENT as int)
}

#[verifier::when_used_as_spec(spec_collides)]
pub fn collides(enemy: Enemy, bullet: Bullet) -> (hit: bool)
    ensures
        hit == collides(enemy, bullet),
{
    let reach: i128 = (ENEMY_HALF_EXTENT + BULLET_HALF_EXTENT) as i128;
    let dx: i128 = enemy.position.x as i128 - bullet.position.x as i128;
    let dy: i128 = enemy.position.y as i128 - bullet.position.y as i128;
    -reach < dx && dx < reach && -reach < dy && dy < reach
}

/// The distance between two coordinates.
pub open spec fn distance(a: int, b: int) -> int {
    if a >= b {
        a - b
    } else {
        b - a
    }
}

/// An enemy and a bullet collide exactly when their positions are less than
/// 22 world units apart on each axis: the two half sides, 16 and 6, together.
pub proof fn collides_iff_within_reach(enemy: Enemy, bullet: Bullet)
    ensures
        collides(enemy, bullet) <==> distance(enemy.position.x as int, bullet.position.x as int) < 22
            * UNIT && distance(enemy.position.y as int, bullet.position.y as int) < 22 * UNIT,
{
}

/// Whether `p` lies outside the viewport: beyond its left, right, top or
/// bottom edge. A point on an edge is inside.
pub open spec fn out_of_bounds(p: Point, viewport: Viewport) -> bool {
    ||| p.x > viewport.half_width()
    ||| p.x < -viewport.half_width()
    ||| p.y > viewport.half_height()
    ||| p.y < -viewport.half_height()
}

/// How many of the bullets lie outside the viewport. A bullet counts once,
/// however many edges it lies beyond.
pub open spec fn count_outside(bullets: Seq<Bullet>, viewport: Viewport) -> nat
    decreases bullets.len(),
{
    if bullets.len() == 0 {
        0
    } else {
        count_outside(bullets.drop_last(), viewport) + if out_of_bounds(
            bullets.last().position,
            viewport,
        ) {
            1nat
        } else {
            0nat
        }
    }
}

/// A longer run of bullets has at least as many outside the viewport, and
/// no run has more outside than it has bullets.
pub proof fn count_outside_grows(bullets: Seq<Bullet>, viewport: Viewport, n: int)
    requires
        0 <= n <= bullets.len(),
    ensures
        count_outside(bullets.take(n), viewport) <= count_outside(bullets, viewport),
        count_outside(bullets, viewport) <= bullets.len(),
    decreases bullets.len(),
{
    if bullets.len() == 0 {
        assert(bullets.take(n) =~= bullets);
    } else if n == bullets.len() {
        assert(bullets.take(n) =~= bullets);
        count_outside_grows(bullets.drop_last(), viewport, n - 1);
    } else {
        assert(bullets.drop_last().take(n) =~= bullets.take(n));
        count_outside_grows(bullets.drop_last(), viewport, n);
    }
}

/// For each bullet, whether it lies outside the viewport.
pub open spec fn bounds_marks(bullets: Seq<Bullet>, viewport: Viewport) -> Seq<bool> {
    Seq::new(bullets.len(), |i: int| out_of_bounds(bullets[i].position, viewport))
}

/// The bullet count after the bounds pass: one less for each bullet outside
/// the viewport.
pub open spec fn count_after_bounds(game: GameData, bullets: Seq<Bullet>, viewport: Viewport) -> int {
    game.bullet_count - count_outside(bullets, viewport)
}

/// The bounds pass: marks each bullet that lies outside the viewport and
/// takes one off the bullet count for each bullet that it marks.
///
/// `gone[i]` tells whether bullet `i` is to be despawned.
pub fn bounds_pass(game: &mut GameData, bullets: &Vec<Bullet>, viewport: &Viewport) -> (gone: Vec<bool>)
    requires
        count_after_bounds(*old(game), bullets@, *viewport) >= i32::MIN,
    ensures
        gone@ == bounds_marks(bullets@, *viewport),
        *final(game) == (GameData {
            bullet_count: (old(game).bullet_count - count_outside(bullets@, *viewport)) as i32,
            ..*old(game)
        }),
{
    let max_right: i64 = viewport.half_width();
    let max_left: i64 = -max_right;
    let max_top: i64 = viewport.half_height();
    let max_bottom: i64 = -max_top;
    let mut gone: Vec<bool> = Vec::new();
    let mut i: usize = 0;
    assert(bullets@.take(0) =~= Seq::<Bullet>::empty());
    while i < bullets.len()
        invariant
            i <= bullets@.len(),
            max_right == viewport.half_width(),
            max_left == -max_right,
            max_top == viewport.half_height(),
            max_bottom == -max_top,
            gone@.len() == i,
            forall|k: int|
                0 <= k < i ==> gone@[k] == out_of_bounds(#[trigger] bullets@[k].position, *viewport),
            count_after_bounds(*old(game), bullets@, *viewport) >= i32::MIN,
            *game == (GameData {
                bullet_count: count_after_bounds(*old(game), bullets@.take(i as int), *viewport) as i32,
                ..*old(game)
            }),
            game.bullet_count == count_after_bounds(*old(game), bullets@.take(i as int), *viewport),
        decreases bullets@.len() - i,
    {
        let position: Point = bullets[i].position;
        proof {
            assert(bullets@.take(i + 1).drop_last() =~= bullets@.take(i as int));
            assert(bullets@.take(i + 1).last() == bullets@[i as int]);
            count_outside_grows(bullets@, *viewport, i + 1);
        }
        let outside: bool = position.x > max_right || position.x < max_left || position.y > max_top
            || position.y < max_bottom;
        if outside {
            game.bullet_count = game.bullet_count - 1;
        }
        gone.push(outside);
        i = i + 1;
    }
    assert(bullets@.take(i as int) =~= bullets@);
    assert(gone@ =~= bounds_marks(bullets@, *viewport));
    gone
}

/// Whether bullet `j` is live, that is not marked in `gone`, and overlaps
/// `enemy`.
pub open spec fn hits(enemy: Enemy, bullets: Seq<Bullet>, gone: Seq<bool>, j: int) -> bool {
    &&& 0 <= j < bullets.len()
    &&& j < gone.len()
    &&& !gone[j]
    &&& collides(enemy, bullets[j])
}

/// The first of the bullets before index `n` that is live and overlaps
/// `enemy`.
pub open spec fn first_hit(enemy: Enemy, bullets: Seq<Bullet>, gone: Seq<bool>, n: int) -> Option<int>
    decreases n,
{
    if n <= 0 {
        None
    } else {
        match first_hit(enemy, bullets, gone, n - 1) {
            Some(j) => Some(j),
            None => if hits(enemy, bullets, gone, n - 1) {
                Some(n - 1)
            } else {
                None
            },
        }
    }
}

/// `first_hit` finds a live bullet that overlaps the enemy and has no such
/// bullet before it, or there is none among the first `n`.
pub proof fn first_hit_is_least(enemy: Enemy, bullets: Seq<Bullet>, gone: Seq<bool>, n: int)
    ensures
        match first_hit(enemy, bullets, gone, n) {
            Some(j) => {
                &&& 0 <= j < n
                &&& hits(enemy, bullets, gone, j)
                &&& forall|k: int| 0 <= k < j ==> !hits(enemy, bullets, gone, k)
            },
            None => forall|k: int| 0 <= k < n ==> !hits(enemy, bullets, gone, k),
        },
    decreases n,
{
    if n > 0 {
        first_hit_is_least(enemy, bullets, gone, n - 1);
    }
}

/// A hit among the first `n` bullets is still the first hit among more.
proof fn first_hit_stays(enemy: Enemy, bullets: Seq<Bullet>, gone: Seq<bool>, n: int, m: int)
    requires
        n <= m,
        first_hit(enemy, bullets, gone, n).is_some(),
    ensures
        first_hit(enemy, bullets, gone, m) == first_hit(enemy, bullets, gone, n),
    decreases m - n,
{
    if n < m {
        first_hit_stays(enemy, bullets, gone, n, m - 1);
    }
}

/// The first live bullet that overlaps `enemy`.
fn first_live_hit(enemy: Enemy, bullets: &Vec<Bullet>, gone: &Vec<bool>) -> (target: Option<usize>)
    requires
        gone@.len() == bullets@.len(),
    ensures
        match target {
            Some(j) => j < bullets@.len() && first_hit(enemy, bullets@, gone@, bullets@.len() as int) == Some(
                j as int,
            ),
            None => first_hit(enemy, bullets@, gone@, bullets@.len() as int).is_none(),
        },
{
    let mut j: usize = 0;
    while j < bullets.len()
        invariant
            j <= bullets@.len(),
            gone@.len() == bullets@.len(),
            first_hit(enemy, bullets@, gone@, j as int).is_none(),
        decreases bullets@.len() - j,
    {
        if !gone[j] && collides(enemy, bullets[j]) {
            proof {
                assert(first_hit(enemy, bullets@, gone@, j + 1) == Some(j as int));
                first_hit_stays(enemy, bullets@, gone@, j + 1, bullets@.len() as int);
            }
            return Some(j);
        }
        j = j + 1;
    }
    None
}

/// How many of the flags are set.
pub open spec fn count_true(flags: Seq<bool>) -> nat
    decreases flags.len(),
{
    if flags.len() == 0 {
        0
    } else {
        count_true(flags.drop_last()) + if flags.last() {
            1nat
        } else {
            0nat
        }
    }
}

/// The overlap pass over the first `n` enemies, in order. Each enemy takes
/// the first live bullet that overlaps it; the two are then gone, so the
/// bullet meets no later enemy and the enemy no later bullet.
///
/// `gone` marks the bullets that were gone before the pass. The result is
/// the mark of each of the `n` enemies, and the marks of the bullets after
/// these enemies.
pub open spec fn overlap_outcome(enemies: Seq<Enemy>, bullets: Seq<Bullet>, gone: Seq<bool>, n: int) -> (
    Seq<bool>,
    Seq<bool>,
)
    decreases n,
{
    if n <= 0 {
        (Seq::<bool>::empty(), gone)
    } else {
        let before = overlap_outcome(enemies, bullets, gone, n - 1);
        match first_hit(enemies[n - 1], bullets, before.1, bullets.len() as int) {
            Some(j) => (before.0.push(true), before.1.update(j, true)),
            None => (before.0.push(false), before.1),
        }
    }
}

/// How many pairs the overlap pass removes.
pub open spec fn overlap_hits(enemies: Seq<Enemy>, bullets: Seq<Bullet>, gone: Seq<bool>) -> nat {
    count_true(overlap_outcome(enemies, bullets, gone, enemies.len() as int).0)
}

/// The pass marks one enemy at a time: after `n` enemies there are `n`
/// marks for them and as many for the bullets as before, and the number of
/// pairs removed only grows with `n`.
pub proof fn overlap_outcome_grows(enemies: Seq<Enemy>, bullets: Seq<Bullet>, gone: Seq<bool>, n: int, m: int)
    requires
        0 <= n <= m,
    ensures
        overlap_outcome(enemies, bullets, gone, n).0.len() == n,
        overlap_outcome(enemies, bullets, gone, n).1.len() == gone.len(),
        count_true(overlap_outcome(enemies, bullets, gone, n).0) <= count_true(
            overlap_outcome(enemies, bullets, gone, m).0,
        ),
        count_true(overlap_outcome(enemies, bullets, gone, n).0) <= n,
    decreases m,
{
    if n < m {
        overlap_outcome_grows(enemies, bullets, gone, n, m - 1);
        overlap_outcome_grows(enemies, bullets, gone, m - 1, m - 1);
        let before = overlap_outcome(enemies, bullets, gone, m - 1);
        assert(before.0.push(true).drop_last() =~= before.0);
        assert(before.0.push(false).drop_last() =~= before.0);
    } else if n > 0 {
        overlap_outcome_grows(enemies, bullets, gone, n - 1, n - 1);
        let before = overlap_outcome(enemies, bullets, gone, n - 1);
        first_hit_is_least(enemies[n - 1], bullets, before.1, bullets.len() as int);
        assert(before.0.push(true).drop_last() =~= before.0);
        assert(before.0.push(false).drop_last() =~= before.0);
    }
}

/// Marking one more flag makes one more set flag.
proof fn count_true_update(flags: Seq<bool>, j: int)
    requires
        0 <= j < flags.len(),
        !flags[j],
    ensures
        count_true(flags.update(j, true)) == count_true(flags) + 1,
    decreases flags.len(),
{
    if j == flags.len() - 1 {
        assert(flags.update(j, true).drop_last() =~= flags.drop_last());
    } else {
        assert(flags.update(j, true).drop_last() =~= flags.drop_last().update(j, true));
        count_true_update(flags.drop_last(), j);
    }
}

/// What holds after the overlap pass went over the first `n` enemies:
/// - a bullet that was gone before is still gone;
/// - no enemy that is left overlaps a bullet that is left;
/// - each enemy that is gone overlaps a bullet that was live before the
///   pass and is gone after it;
/// - as many bullets as enemies went.
pub proof fn overlap_pass_removes_pairs(enemies: Seq<Enemy>, bullets: Seq<Bullet>, gone: Seq<bool>, n: int)
    requires
        gone.len() == bullets.len(),
        0 <= n <= enemies.len(),
    ensures
        ({
            let after = overlap_outcome(enemies, bullets, gone, n);
            &&& after.0.len() == n
            &&& after.1.len() == gone.len()
            &&& forall|j: int| 0 <= j < gone.len() && gone[j] ==> #[trigger] after.1[j]
            &&& forall|i: int, j: int|
                0 <= i < n && 0 <= j < bullets.len() && !#[trigger] after.0[i] && !#[trigger] after.1[j]
                    ==> !collides(enemies[i], bullets[j])
            &&& forall|i: int|
                0 <= i < n && #[trigger] after.0[i] ==> exists|j: int|
                    0 <= j < bullets.len() && !gone[j] && #[trigger] after.1[j] && collides(
                        enemies[i],
                        bullets[j],
                    )
            &&& count_true(after.1) == count_true(gone) + count_true(after.0)
        }),
    decreases n,
{
    if n > 0 {
        overlap_pass_removes_pairs(enemies, bullets, gone, n - 1);
        let before = overlap_outcome(enemies, bullets, gone, n - 1);
        let after = overlap_outcome(enemies, bullets, gone, n);
        let enemy = enemies[n - 1];
        first_hit_is_least(enemy, bullets, before.1, bullets.len() as int);
        match first_hit(enemy, bullets, before.1, bullets.len() as int) {
            Some(target) => {
                assert(after.0 == before.0.push(true));
                assert(after.1 == before.1.update(target, true));
                assert(after.0.drop_last() =~= before.0);
                count_true_update(before.1, target);
                assert(!gone[target]);
                assert forall|i: int| 0 <= i < n && #[trigger] after.0[i] implies exists|j: int|
                    0 <= j < bullets.len() && !gone[j] && #[trigger] after.1[j] && collides(
                        enemies[i],
                        bullets[j],
                    ) by {
                    if i < n - 1 {
                        assert(before.0[i]);
                        let j = choose|j: int|
                            0 <= j < bullets.len() && !gone[j] && #[trigger] before.1[j] && collides(
                                enemies[i],
                                bullets[j],
                            );
                        assert(after.1[j]);
                    } else {
                        assert(after.1[target]);
                    }
                }
                assert forall|i: int, j: int|
                    0 <= i < n && 0 <= j < bullets.len() && !#[trigger] after.0[i] && !#[trigger] after.1[j]
                    implies !collides(enemies[i], bullets[j]) by {
                    assert(i < n - 1);
                    assert(!before.0[i]);
                    assert(!before.1[j]);
                }
            },
            None => {
                assert(after.0 == before.0.push(false));
                assert(after.1 == before.1);
                assert(after.0.drop_last() =~= before.0);
                assert forall|i: int| 0 <= i < n && #[trigger] after.0[i] implies exists|j: int|
                    0 <= j < bullets.len() && !gone[j] && #[trigger] after.1[j] && collides(
                        enemies[i],
                        bullets[j],
                    ) by {
                    assert(before.0[i]);
                }
                assert forall|i: int, j: int|
                    0 <= i < n && 0 <= j < bullets.len() && !#[trigger] after.0[i] && !#[trigger] after.1[j]
                    implies !collides(enemies[i], bullets[j]) by {
                    if i < n - 1 {
                        assert(!before.0[i]);
                    } else {
                        assert(!hits(enemy, bullets, before.1, j));
                    }
                }
            },
        }
    }
}

/// The overlap pass: pairs each enemy, in order, with the first live bullet
/// that overlaps it, marks both, and takes one off both counts for each pair.
///
/// `gone` marks the bullets that are already gone in this frame. Returns
/// the mark of each enemy and the marks of the bullets after the pass.
pub fn overlap_pass(game: &mut GameData, enemies: &Vec<Enemy>, bullets: &Vec<Bullet>, gone: Vec<bool>) -> (marks: (
    Vec<bool>,
    Vec<bool>,
))
    requires
        gone@.len() == bullets@.len(),
        old(game).bullet_count - overlap_hits(enemies@, bullets@, gone@) >= i32::MIN,
        old(game).enemy_count - overlap_hits(enemies@, bullets@, gone@) >= i32::MIN,
    ensures
        (marks.0@, marks.1@) == overlap_outcome(enemies@, bullets@, gone@, enemies@.len() as int),
        *final(game) == (GameData {
            bullet_count: (old(game).bullet_count - overlap_hits(enemies@, bullets@, gone@)) as i32,
            enemy_count: (old(game).enemy_count - overlap_hits(enemies@, bullets@, gone@)) as i32,
            ..*old(game)
        }),
{
    let ghost before = gone@;
    let mut struck: Vec<bool> = Vec::new();
    let mut spent: Vec<bool> = gone;
    let mut i: usize = 0;
    while i < enemies.len()
        invariant
            i <= enemies@.len(),
            spent@.len() == bullets@.len(),
            before.len() == bullets@.len(),
            (struck@, spent@) == overlap_outcome(enemies@, bullets@, before, i as int),
            old(game).bullet_count - overlap_hits(enemies@, bullets@, before) >= i32::MIN,
            old(game).enemy_count - overlap_hits(enemies@, bullets@, before) >= i32::MIN,
            game.bullet_count == old(game).bullet_count - count_true(struck@),
            game.enemy_count == old(game).enemy_count - count_true(struck@),
            *game == (GameData { bullet_count: game.bullet_count, enemy_count: game.enemy_count, ..*old(game) }),
        decreases enemies@.len() - i,
    {
        proof {
            overlap_outcome_grows(enemies@, bullets@, before, i + 1, enemies@.len() as int);
            assert(struck@.push(true).drop_last() =~= struck@);
            assert(struck@.push(false).drop_last() =~= struck@);
        }
        match first_live_hit(enemies[i], bullets, &spent) {
            Some(j) => {
                struck.push(true);
                spent.set(j, true);
                game.bullet_count = game.bullet_count - 1;
                game.enemy_count = game.enemy_count - 1;
            },
            None => {
                struck.push(false);
            },
        }
        i = i + 1;
    }
    (struck, spent)
}

/// What the collision system removes in one frame: `bullets[i]` tells
/// whether bullet `i` is despawned, `enemies[k]` whether enemy `k` is.
#[derive(Debug)]
pub struct Despawned {
    pub bullets: Vec<bool>,
    pub enemies: Vec<bool>,
}

/// The marks that one frame of the collision system sets: those of the
/// enemies, then those of the bullets. A bullet that the bounds pass marked is
/// no longer live in the overlap pass.
pub open spec fn collision_outcome(enemies: Seq<Enemy>, bullets: Seq<Bullet>, viewport: Viewport) -> (
    Seq<bool>,
    Seq<bool>,
) {
    overlap_outcome(enemies, bullets, bounds_marks(bullets, viewport), enemies.len() as int)
}

/// How many pairs one frame of the collision system removes.
pub open spec fn collision_hits(enemies: Seq<Enemy>, bullets: Seq<Bullet>, viewport: Viewport) -> nat {
    overlap_hits(enemies, bullets, bounds_marks(bullets, viewport))
}

/// The state after one frame of the collision system.
pub open spec fn collided(game: GameData, enemies: Seq<Enemy>, bullets: Seq<Bullet>, viewport: Viewport) -> GameData {
    GameData {
        bullet_count: (count_after_bounds(game, bullets, viewport) - collision_hits(enemies, bullets, viewport)) as i32,
        enemy_count: (game.enemy_count - collision_hits(enemies, bullets, viewport)) as i32,
        ..game
    }
}

/// One frame of the collision system: the bounds pass, then the overlap pass
/// over what is still live.
pub fn check_collisions(game: &mut GameData, bullets: &Vec<Bullet>, enemies: &Vec<Enemy>, viewport: &Viewport) -> (despawned: Despawned)
    requires
        count_after_bounds(*old(game), bullets@, *viewport) - collision_hits(enemies@, bullets@, *viewport)
            >= i32::MIN,
        old(game).enemy_count - collision_hits(enemies@, bullets@, *viewport) >= i32::MIN,
    ensures
        (despawned.enemies@, despawned.bullets@) == collision_outcome(enemies@, bullets@, *viewport),
        *final(game) == collided(*old(game), enemies@, bullets@, *viewport),
{
    let gone = bounds_pass(game, bullets, viewport);
    let marks = overlap_pass(game, enemies, bullets, gone);
    Despawned { bullets: marks.1, enemies: marks.0 }
}

/// There are no more set flags than flags.
proof fn count_true_bound(flags: Seq<bool>)
    ensures
        count_true(flags) <= flags.len(),
    decreases flags.len(),
{
    if flags.len() > 0 {
        count_true_bound(flags.drop_last());
    }
}

/// The bounds pass marks as many bullets as lie outside the viewport.
proof fn bounds_marks_count(bullets: Seq<Bullet>, viewport: Viewport)
    ensures
        count_true(bounds_marks(bullets, viewport)) == count_outside(bullets, viewport),
    decreases bullets.len(),
{
    if bullets.len() > 0 {
        assert(bounds_marks(bullets, viewport).drop_last() =~= bounds_marks(bullets.drop_last(), viewport));
        bounds_marks_count(bullets.drop_last(), viewport);
    }
}

/// The counts follow the marks: where the counts stay in the range of their
/// type, a frame of the collision system takes one off the bullet count for
/// each bullet that it marks and one off the enemy count for each enemy that
/// it marks, and the bounds pass marks exactly the bullets outside the
/// viewport. So counts that were the numbers of live bullets and enemies
/// before the frame are the numbers of those left after it, and neither
/// falls below zero.
pub proof fn counts_follow_marks(game: GameData, enemies: Seq<Enemy>, bullets: Seq<Bullet>, viewport: Viewport)
    requires
        count_after_bounds(game, bullets, viewport) - collision_hits(enemies, bullets, viewport) >= i32::MIN,
        game.enemy_count - collision_hits(enemies, bullets, viewport) >= i32::MIN,
    ensures
        count_true(bounds_marks(bullets, viewport)) == count_outside(bullets, viewport),
        collision_outcome(enemies, bullets, viewport).0.len() == enemies.len(),
        collision_outcome(enemies, bullets, viewport).1.len() == bullets.len(),
        collided(game, enemies, bullets, viewport).bullet_count == game.bullet_count - count_true(
            collision_outcome(enemies, bullets, viewport).1,
        ),
        collided(game, enemies, bullets, viewport).enemy_count == game.enemy_count - count_true(
            collision_outcome(enemies, bullets, viewport).0,
        ),
        count_true(collision_outcome(enemies, bullets, viewport).1) <= bullets.len(),
        count_true(collision_outcome(enemies, bullets, viewport).0) <= enemies.len(),
        game.bullet_count == bullets.len() ==> collided(game, enemies, bullets, viewport).bullet_count >= 0,
        game.enemy_count == enemies.len() ==> collided(game, enemies, bullets, viewport).enemy_count >= 0,
{
    bounds_marks_count(bullets, viewport);
    overlap_pass_removes_pairs(enemies, bullets, bounds_marks(bullets, viewport), enemies.len() as int);
    count_true_bound(collision_outcome(enemies, bullets, viewport).0);
    count_true_bound(collision_outcome(enemies, bullets, viewport).1);
}

/// An enemy and a bullet inside the viewport, alone in a frame, are both
/// despawned if they are less than 22 world units apart on each axis, and one
/// is taken off each count. Otherwise both are left and the state stays as it
/// is.
pub proof fn live_pair_goes_iff_within_reach(game: GameData, enemy: Enemy, bullet: Bullet, viewport: Viewport)
    requires
        viewport.contains(bullet.position),
        game.bullet_count > i32::MIN,
        game.enemy_count > i32::MIN,
    ensures
        ({
            let within = distance(enemy.position.x as int, bullet.position.x as int) < 22 * UNIT && distance(
                enemy.position.y as int,
                bullet.position.y as int,
            ) < 22 * UNIT;
            &&& collision_outcome(seq![enemy], seq![bullet], viewport) == (seq![within], seq![within])
            &&& collided(game, seq![enemy], seq![bullet], viewport) == if within {
                GameData {
                    bullet_count: (game.bullet_count - 1) as i32,
                    enemy_count: (game.enemy_count - 1) as i32,
                    ..game
                }
            } else {
                game
            }
        }),
{
    let enemies = seq![enemy];
    let bullets = seq![bullet];
    let gone = bounds_marks(bullets, viewport);
    assert(gone =~= seq![false]);
    reveal_with_fuel(overlap_outcome, 2);
    reveal_with_fuel(first_hit, 2);
    reveal_with_fuel(count_true, 2);
    reveal_with_fuel(count_outside, 2);
    collides_iff_within_reach(enemy, bullet);
    assert(bullets.drop_last() =~= Seq::<Bullet>::empty());
    assert(count_outside(bullets, viewport) == 0);
    let after = overlap_outcome(enemies, bullets, gone, 1);
    if collides(enemy, bullet) {
        assert(hits(enemy, bullets, gone, 0));
        assert(after.0 =~= seq![true]);
        assert(after.1 =~= seq![true]);
        assert(after.0.drop_last() =~= Seq::<bool>::empty());
        assert(count_true(after.0) == 1);
    } else {
        assert(after.0 =~= seq![false]);
        assert(after.1 =~= seq![false]);
        assert(after.0.drop_last() =~= Seq::<bool>::empty());
        assert(count_true(after.0) == 0);
    }
}

} // verus!
