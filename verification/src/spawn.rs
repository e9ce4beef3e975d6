//! The spawn system: on a timer, and below a cap, an enemy appears at a
//! random place in the viewport.

use rand::Rng;
use vstd::prelude::*;
use crate::components::Enemy;
use crate::geometry::{Point, Viewport};
use crate::resources::{GameData, MAX_ENEMIES};

verus! {

/// Whether an enemy spawns in a frame of `delta` microseconds: the timer,
/// with the frame's time added, has gathered a whole period, and fewer
/// enemies than the cap are alive.
pub open spec fn spawn_due(game: GameData, delta: u32) -> bool {
    game.enemy_timer.ticked(delta).finished() && game.enemy_count < MAX_ENEMIES
}

/// The state after the spawn system ran for a frame of `delta`
/// microseconds. The timer gathers the frame's time whether or not an enemy
/// spawns, and starts its next period only when one does.
pub open spec fn spawn_counted(game: GameData, delta: u32) -> GameData {
    if spawn_due(game, delta) {
        GameData {
            enemy_count: (game.enemy_count + 1) as i32,
            enemy_timer: game.enemy_timer.ticked(delta).rewound(),
            ..game
        }
    } else {
        GameData { enemy_timer: game.enemy_timer.ticked(delta), ..game }
    }
}

/// Advances the spawn timer by `delta` microseconds and tells whether an
/// enemy spawns now; if so, counts it.
pub fn spawn_tick(game: &mut GameData, delta: u32) -> (due: bool)
    requires
        old(game).wf(),
    ensures
        due == spawn_due(*old(game), delta),
        *final(game) == spawn_counted(*old(game), delta),
        final(game).wf(),
{
    game.enemy_timer.tick(delta);
    if game.enemy_timer.finished() && game.enemy_count < MAX_ENEMIES {
        game.enemy_timer.rewind();
        game.enemy_count = game.enemy_count + 1;
        true
    } else {
        false
    }
}

/// Calls `Rng::gen_range` of the `rand` crate on the generator that
/// `rand::thread_rng` hands out, with the inclusive range from `low` to
/// `high`. Not proved here: that the call returns for a range that is not
/// empty, and that the number drawn lies in the range. Which number it is
/// differs from call to call, so nothing more is said of it.
#[verifier::external_body]
fn random_between(low: i64, high: i64) -> (drawn: i64)
    requires
        low <= high,
    ensures
        low <= drawn <= high,
{
    rand::thread_rng().gen_range(low..=high)
}

/// One frame of the spawn system. Returns the enemy to create, if one
/// spawns: it stands somewhere in the viewport, its edges included.
pub fn spawn_enemies(game: &mut GameData, viewport: &Viewport, delta: u32) -> (spawned: Option<Enemy>)
    requires
        old(game).wf(),
    ensures
        spawned.is_some() == spawn_due(*old(game), delta),
        spawned matches Some(enemy) ==> viewport.contains(enemy.position) && enemy == Enemy::spawned(
            enemy.position,
        ),
        *final(game) == spawn_counted(*old(game), delta),
        final(game).wf(),
{
    if !spawn_tick(game, delta) {
        return None;
    }
    let max_right: i64 = viewport.half_width();
    let max_top: i64 = viewport.half_height();
    let x: i64 = random_between(-max_right, max_right);
    let y: i64 = random_between(-max_top, max_top);
    Some(Enemy::spawned(Point { x, y }))
}

/// With as many enemies alive as the cap allows, or more, no enemy spawns,
/// whatever the timer holds and however long the frame is. The count stays,
/// and the timer still gathers the frame's time.
pub proof fn no_spawn_at_cap(game: GameData, delta: u32)
    requires
        game.enemy_count >= MAX_ENEMIES,
    ensures
        !spawn_due(game, delta),
        spawn_counted(game, delta).enemy_count == game.enemy_count,
        spawn_counted(game, delta).enemy_timer == game.enemy_timer.ticked(delta),
{
}

/// A timer that is finished stays so while the cap holds spawns back, so the
/// enemy spawns in the first frame in which the count is below the cap,
/// however short that frame is. The spawn starts the timer's next period.
pub proof fn held_back_spawn_is_not_lost(game: GameData, delta: u32)
    requires
        game.wf(),
        game.enemy_timer.finished(),
    ensures
        spawn_counted(game, delta).wf(),
        game.enemy_count >= MAX_ENEMIES ==> spawn_counted(game, delta).enemy_timer.finished(),
        game.enemy_count < MAX_ENEMIES ==> spawn_due(game, delta) && spawn_counted(game, delta).enemy_count
            == game.enemy_count + 1 && !spawn_counted(game, delta).enemy_timer.finished(),
{
    game.enemy_timer.tick_and_rewind_bounds(delta);
    game.enemy_timer.ticked(delta).tick_and_rewind_bounds(delta);
}

} // verus!
