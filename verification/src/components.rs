//! The three kinds of entity: the player's ship, bullets and enemies.

use vstd::prelude::*;
use crate::geometry::{Heading, Point, UNIT};

verus! {

/// Speed of the ship, in world units per second.
pub const SHIP_SPEED: u32 = 200;

/// Turning rate of the ship, in degrees per second: half a turn.
pub const SHIP_ROTATION_SPEED: u32 = 180;

/// Speed of a bullet, in world units per second.
pub const BULLET_SPEED: u32 = 600;

/// Speed of an enemy, in world units per second.
pub const ENEMY_SPEED: u32 = 100;

/// Half the side of an enemy's bounding box, in steps.
pub const ENEMY_HALF_EXTENT: i64 = 16 * UNIT;

/// Half the side of a bullet's bounding box, in steps.
pub const BULLET_HALF_EXTENT: i64 = 6 * UNIT;

/// The ship that the player steers.
#[derive(Clone, Copy, Debug, PartialEq, Eq, Structural)]
pub struct PlayerShip {
    pub position: Point,
    pub rotation: Heading,
    pub rotation_speed: u32,
    pub speed: u32,
}

impl Default for PlayerShip {
    /// A ship at the origin that faces up.
    fn default() -> (ship: Self)
        ensures
            ship == (PlayerShip {
                position: Point { x: 0, y: 0 },
                rotation: Heading::Up,
                rotation_speed: SHIP_ROTATION_SPEED,
                speed: SHIP_SPEED,
            }),
    {
        PlayerShip {
            position: Point { x: 0, y: 0 },
            rotation: Heading::Up,
            rotation_speed: SHIP_ROTATION_SPEED,
            speed: SHIP_SPEED,
        }
    }
}

/// A projectile. Its rotation is fixed when it is fired.
#[derive(Clone, Copy, Debug, PartialEq, Eq, Structural)]
pub struct Bullet {
    pub position: Point,
    pub rotation: Heading,
    pub speed: u32,
}

impl Bullet {
    /// The bullet that leaves `position` towards `rotation`.
    pub open spec fn spec_fired(position: Point, rotation: Heading) -> Bullet {
        Bullet { position, rotation, speed: BULLET_SPEED }
    }

    #[verifier::when_used_as_spec(spec_fired)]
    pub fn fired(position: Point, rotation: Heading) -> (bullet: Bullet)
        ensures
            bullet == Bullet::fired(position, rotation),
    {
        Bullet { position, rotation, speed: BULLET_SPEED }
    }
}

impl Default for Bullet {
    /// A bullet at the origin that flies up.
    fn default() -> (bullet: Self)
        ensures
            bullet == Bullet::fired(Point { x: 0, y: 0 }, Heading::Up),
    {
        Bullet::fired(Point { x: 0, y: 0 }, Heading::Up)
    }
}

/// An enemy. It occupies a square of twice [`ENEMY_HALF_EXTENT`] around its
/// position.
#[derive(Clone, Copy, Debug, PartialEq, Eq, Structural)]
pub struct Enemy {
    pub position: Point,
    pub speed: u32,
}

impl Enemy {
    /// The enemy that appears at `position`.
    pub open spec fn spec_spawned(position: Point) -> Enemy {
        Enemy { position, speed: ENEMY_SPEED }
    }

    #[verifier::when_used_as_spec(spec_spawned)]
    pub fn spawned(position: Point) -> (enemy: Enemy)
        ensures
            enemy == Enemy::spawned(position),
    {
        Enemy { position, speed: ENEMY_SPEED }
    }
}

impl Default for Enemy {
    /// An enemy at the origin.
    fn default() -> (enemy: Self)
        ensures
            enemy == Enemy::spawned(Point { x: 0, y: 0 }),
    {
        Enemy::spawned(Point { x: 0, y: 0 })
    }
}

} // verus!
