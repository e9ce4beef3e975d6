//! The movement system: bullets fly along their heading.

use vstd::prelude::*;
use crate::components::Bullet;
use crate::geometry::{advance_clamped, advanced, clamp_int, Point};

verus! {

/// The bullet after `delta` microseconds: moved by `speed * delta` steps
/// along its heading. A coordinate that would leave the range of `i64`
/// stops at the end of that range.
pub open spec fn moved(bullet: Bullet, delta: u32) -> Bullet {
    Bullet {
        position: Point {
            x: clamp_int(
                advanced(
                    bullet.position.x as int,
                    bullet.rotation.direction().0 as int,
                    bullet.speed as int,
                    delta as int,
                ),
                i64::MIN as int,
                i64::MAX as int,
            ) as i64,
            y: clamp_int(
                advanced(
                    bullet.position.y as int,
                    bullet.rotation.direction().1 as int,
                    bullet.speed as int,
                    delta as int,
                ),
                i64::MIN as int,
                i64::MAX as int,
            ) as i64,
        },
        ..bullet
    }
}

/// One frame of the movement system: every bullet moves for `delta`
/// microseconds.
pub fn move_bullets(bullets: &mut Vec<Bullet>, delta: u32)
    ensures
        final(bullets)@ == old(bullets)@.map_values(|bullet: Bullet| moved(bullet, delta)),
{
    let mut i: usize = 0;
    while i < bullets.len()
        invariant
            i <= bullets@.len(),
            bullets@.len() == old(bullets)@.len(),
            forall|k: int| 0 <= k < i ==> bullets@[k] == moved(#[trigger] old(bullets)@[k], delta),
            forall|k: int| i <= k < bullets@.len() ==> bullets@[k] == old(bullets)@[k],
        decreases bullets@.len() - i,
    {
        let bullet: Bullet = bullets[i];
        let direction: (i8, i8) = bullet.rotation.direction();
        let x: i64 = advance_clamped(bullet.position.x, direction.0, bullet.speed, delta, i64::MIN, i64::MAX);
        let y: i64 = advance_clamped(bullet.position.y, direction.1, bullet.speed, delta, i64::MIN, i64::MAX);
        bullets.set(i, Bullet { position: Point { x, y }, rotation: bullet.rotation, speed: bullet.speed });
        i = i + 1;
    }
    assert(bullets@ =~= old(bullets)@.map_values(|bullet: Bullet| moved(bullet, delta)));
}

} // verus!
