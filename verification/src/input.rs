//! Keys, and the system that turns a frame's key state into a shot and a
//! ship movement.

use vstd::prelude::*;
use crate::components::{Bullet, PlayerShip};
use crate::geometry::{advance_clamped, advanced, clamp_int, Heading, Point, Viewport};
use crate::resources::GameData;

verus! {

/// The keys that the game reads.
#[derive(Clone, Copy, Debug, PartialEq, Eq, Structural)]
pub enum Key {
    Up,
    Down,
    Left,
    Right,
    W,
    A,
    S,
    D,
    Space,
}

/// A set of keys.
#[derive(Clone, Copy, Debug, PartialEq, Eq, Structural)]
pub struct KeySet {
    pub up: bool,
    pub down: bool,
    pub left: bool,
    pub right: bool,
    pub w: bool,
    pub a: bool,
    pub s: bool,
    pub d: bool,
    pub space: bool,
}

impl KeySet {
    /// The set without keys.
    pub open spec fn spec_empty() -> KeySet {
        KeySet {
            up: false,
            down: false,
            left: false,
            right: false,
            w: false,
            a: false,
            s: false,
            d: false,
            space: false,
        }
    }

    #[verifier::when_used_as_spec(spec_empty)]
    pub fn empty() -> (keys: KeySet)
        ensures
            keys == KeySet::empty(),
            forall|key: Key| !keys.contains(key),
    {
        KeySet {
            up: false,
            down: false,
            left: false,
            right: false,
            w: false,
            a: false,
            s: false,
            d: false,
            space: false,
        }
    }

    /// The set with `key` added.
    pub open spec fn spec_with(self, key: Key) -> KeySet {
        match key {
            Key::Up => KeySet { up: true, ..self },
            Key::Down => KeySet { down: true, ..self },
            Key::Left => KeySet { left: true, ..self },
            Key::Right => KeySet { right: true, ..self },
            Key::W => KeySet { w: true, ..self },
            Key::A => KeySet { a: true, ..self },
            Key::S => KeySet { s: true, ..self },
            Key::D => KeySet { d: true, ..self },
            Key::Space => KeySet { space: true, ..self },
        }
    }

    #[verifier::when_used_as_spec(spec_with)]
    pub fn with(self, key: Key) -> (keys: KeySet)
        ensures
            keys == self.with(key),
            forall|other: Key| keys.contains(other) == (other == key || self.contains(other)),
    {
        let mut keys = self;
        match key {
            Key::Up => keys.up = true,
            Key::Down => keys.down = true,
            Key::Left => keys.left = true,
            Key::Right => keys.right = true,
            Key::W => keys.w = true,
            Key::A => keys.a = true,
            Key::S => keys.s = true,
            Key::D => keys.d = true,
            Key::Space => keys.space = true,
        }
        keys
    }

    pub open spec fn spec_contains(self, key: Key) -> bool {
        match key {
            Key::Up => self.up,
            Key::Down => self.down,
            Key::Left => self.left,
            Key::Right => self.right,
            Key::W => self.w,
            Key::A => self.a,
            Key::S => self.s,
            Key::D => self.d,
            Key::Space => self.space,
        }
    }

    /// Whether `key` is in the set.
    #[verifier::when_used_as_spec(spec_contains)]
    pub fn contains(self, key: Key) -> (found: bool)
        ensures
            found == self.contains(key),
    {
        match key {
            Key::Up => self.up,
            Key::Down => self.down,
            Key::Left => self.left,
            Key::Right => self.right,
            Key::W => self.w,
            Key::A => self.a,
            Key::S => self.s,
            Key::D => self.d,
            Key::Space => self.space,
        }
    }
}

/// What the keyboard reports for one frame.
#[derive(Clone, Copy, Debug, PartialEq, Eq, Structural)]
pub struct KeyInput {
    /// The keys that are down.
    pub held: KeySet,
    /// The keys that went down in this frame.
    pub fresh: KeySet,
}

impl KeyInput {
    /// A frame in which no key is down.
    pub fn idle() -> (input: KeyInput)
        ensures
            input == (KeyInput { held: KeySet::empty(), fresh: KeySet::empty() }),
    {
        KeyInput { held: KeySet::empty(), fresh: KeySet::empty() }
    }

    /// The same frame with `key` down since an earlier frame.
    pub fn holding(self, key: Key) -> (input: KeyInput)
        ensures
            input == (KeyInput { held: self.held.with(key), fresh: self.fresh }),
    {
        KeyInput { held: self.held.with(key), fresh: self.fresh }
    }

    /// The same frame with `key` going down in it.
    pub fn pressing(self, key: Key) -> (input: KeyInput)
        ensures
            input == (KeyInput { held: self.held.with(key), fresh: self.fresh.with(key) }),
    {
        KeyInput { held: self.held.with(key), fresh: self.fresh.with(key) }
    }

    pub open spec fn spec_pressed(self, key: Key) -> bool {
        self.held.contains(key)
    }

    pub open spec fn spec_just_pressed(self, key: Key) -> bool {
        self.fresh.contains(key)
    }

    /// Whether `key` is down.
    #[verifier::when_used_as_spec(spec_pressed)]
    pub fn pressed(self, key: Key) -> (down: bool)
        ensures
            down == self.pressed(key),
    {
        self.held.contains(key)
    }

    /// Whether `key` went down in this frame.
    #[verifier::when_used_as_spec(spec_just_pressed)]
    pub fn just_pressed(self, key: Key) -> (down: bool)
        ensures
            down == self.just_pressed(key),
    {
        self.fresh.contains(key)
    }
}

/// The direction of this frame's shot: that of an arrow key that went down
/// in this frame. Where several did, down goes before up, up before left and
/// left before right.
pub open spec fn fire_direction(input: KeyInput) -> Option<Heading> {
    if input.just_pressed(Key::Down) {
        Some(Heading::Down)
    } else if input.just_pressed(Key::Up) {
        Some(Heading::Up)
    } else if input.just_pressed(Key::Left) {
        Some(Heading::Left)
    } else if input.just_pressed(Key::Right) {
        Some(Heading::Right)
    } else {
        None
    }
}

/// Whether the bullet cap admits another shot.
pub open spec fn may_fire(game: GameData) -> bool {
    game.bullet_count <= game.max_bullets
}

/// Whether this frame's input fires a bullet: an arrow key went down and
/// the cap admits the shot.
pub open spec fn fires(input: KeyInput, game: GameData) -> bool {
    fire_direction(input).is_some() && may_fire(game)
}

/// The bullet that this frame's input fires, if any: it leaves the ship's
/// position along the fire direction.
pub open spec fn shot(input: KeyInput, ship: PlayerShip, game: GameData) -> Option<Bullet> {
    if fires(input, game) {
        Some(Bullet::fired(ship.position, fire_direction(input).unwrap()))
    } else {
        None
    }
}

/// The state after this frame's shot, if there is one, was counted.
pub open spec fn counted(game: GameData, input: KeyInput) -> GameData {
    if fires(input, game) {
        GameData { bullet_count: (game.bullet_count + 1) as i32, ..game }
    } else {
        game
    }
}

/// Where the ship faces: towards the arrow key that is down. Where several
/// are, right goes before left, left before up and up before down; where
/// none is, the ship keeps facing `current`.
pub open spec fn facing(input: KeyInput, current: Heading) -> Heading {
    if input.pressed(Key::Right) {
        Heading::Right
    } else if input.pressed(Key::Left) {
        Heading::Left
    } else if input.pressed(Key::Up) {
        Heading::Up
    } else if input.pressed(Key::Down) {
        Heading::Down
    } else {
        current
    }
}

/// The direction in which the letter keys push the ship on each axis: `D`
/// against `A` on `x`, `W` against `S` on `y`.
pub open spec fn steering(input: KeyInput) -> (i8, i8) {
    (
        ((if input.pressed(Key::D) { 1int } else { 0int })
            - (if input.pressed(Key::A) { 1int } else { 0int })) as i8,
        ((if input.pressed(Key::W) { 1int } else { 0int })
            - (if input.pressed(Key::S) { 1int } else { 0int })) as i8,
    )
}

/// The ship after one frame of `delta` microseconds: turned to where the
/// arrow keys point, moved where the letter keys push it, and kept inside
/// the viewport on each axis.
pub open spec fn steered(ship: PlayerShip, input: KeyInput, viewport: Viewport, delta: u32) -> PlayerShip {
    PlayerShip {
        position: Point {
            x: clamp_int(
                advanced(ship.position.x as int, steering(input).0 as int, ship.speed as int, delta as int),
                -viewport.half_width(),
                viewport.half_width() as int,
            ) as i64,
            y: clamp_int(
                advanced(ship.position.y as int, steering(input).1 as int, ship.speed as int, delta as int),
                -viewport.half_height(),
                viewport.half_height() as int,
            ) as i64,
        },
        rotation: facing(input, ship.rotation),
        ..ship
    }
}

/// The bullet that leaves the ship along `rotation`, unless the bullet count
/// is above the cap. Counting the bullet is left to the caller.
pub fn fire_bullet(game: &GameData, ship: &PlayerShip, rotation: Heading) -> (fired: Option<Bullet>)
    ensures
        fired == if may_fire(*game) {
            Some(Bullet::fired(ship.position, rotation))
        } else {
            None::<Bullet>
        },
{
    if game.bullet_count <= game.max_bullets {
        Some(Bullet::fired(ship.position, rotation))
    } else {
        None
    }
}

/// One frame of fire control and steering.
///
/// Returns the bullet to create, if one is fired, and counts it; then turns
/// and moves the ship. The bullet starts where the ship was before it moved.
pub fn keyboard_input(
    input: &KeyInput,
    ship: &mut PlayerShip,
    game: &mut GameData,
    viewport: &Viewport,
    delta: u32,
) -> (fired: Option<Bullet>)
    requires
        fires(*input, *old(game)) ==> old(game).bullet_count < i32::MAX,
    ensures
        fired == shot(*input, *old(ship), *old(game)),
        *final(game) == counted(*old(game), *input),
        *final(ship) == steered(*old(ship), *input, *viewport, delta),
{
    let mut fired: Option<Bullet> = None;
    if input.just_pressed(Key::Right) {
        fired = fire_bullet(game, ship, Heading::Right);
    }
    if input.just_pressed(Key::Left) {
        fired = fire_bullet(game, ship, Heading::Left);
    }
    if input.just_pressed(Key::Up) {
        fired = fire_bullet(game, ship, Heading::Up);
    }
    if input.just_pressed(Key::Down) {
        fired = fire_bullet(game, ship, Heading::Down);
    }
    if fired.is_some() {
        game.bullet_count = game.bullet_count + 1;
    }

    if input.pressed(Key::Right) {
        ship.rotation = Heading::Right;
    } else if input.pressed(Key::Left) {
        ship.rotation = Heading::Left;
    } else if input.pressed(Key::Up) {
        ship.rotation = Heading::Up;
    } else if input.pressed(Key::Down) {
        ship.rotation = Heading::Down;
    }

    let mut x_direction: i8 = 0;
    let mut y_direction: i8 = 0;
    if input.pressed(Key::A) {
        x_direction = x_direction - 1;
    }
    if input.pressed(Key::D) {
        x_direction = x_direction + 1;
    }
    if input.pressed(Key::W) {
        y_direction = y_direction + 1;
    }
    if input.pressed(Key::S) {
        y_direction = y_direction - 1;
    }

    let max_right: i64 = viewport.half_width();
    let max_top: i64 = viewport.half_height();
    ship.position.x = advance_clamped(ship.position.x, x_direction, ship.speed, delta, -max_right, max_right);
    ship.position.y = advance_clamped(ship.position.y, y_direction, ship.speed, delta, -max_top, max_top);
    fired
}

/// The state after a run of frames, each with its own input, was counted.
pub open spec fn counted_over(game: GameData, inputs: Seq<KeyInput>) -> GameData
    decreases inputs.len(),
{
    if inputs.len() == 0 {
        game
    } else {
        counted(counted_over(game, inputs.drop_last()), inputs.last())
    }
}

/// A bullet is fired exactly when an arrow key went down in the frame and
/// the bullet count is not above the cap. With the count above the cap no
/// bullet is created and the state stays as it is, whatever the keys do.
pub proof fn no_shot_above_cap(input: KeyInput, ship: PlayerShip, game: GameData)
    ensures
        shot(input, ship, game).is_some() <==> fire_direction(input).is_some() && game.bullet_count
            <= game.max_bullets,
        game.bullet_count > game.max_bullets ==> shot(input, ship, game).is_none() && counted(game, input)
            == game,
{
}

/// Whether no arrow key went down in the frame. Keys that are held, and
/// keys that do not fire, may be in any state.
pub open spec fn no_fire_key_went_down(input: KeyInput) -> bool {
    &&& !input.just_pressed(Key::Up)
    &&& !input.just_pressed(Key::Down)
    &&& !input.just_pressed(Key::Left)
    &&& !input.just_pressed(Key::Right)
}

/// A key that is held fires once, in the frame in which it went down: a
/// frame in which no arrow key went down creates no bullet and leaves the
/// state as it is, and so does any run of such frames.
pub proof fn held_key_fires_once(inputs: Seq<KeyInput>, ship: PlayerShip, game: GameData)
    requires
        forall|i: int| 0 <= i < inputs.len() ==> no_fire_key_went_down(#[trigger] inputs[i]),
    ensures
        forall|i: int| 0 <= i < inputs.len() ==> shot(#[trigger] inputs[i], ship, game).is_none(),
        counted_over(game, inputs) == game,
    decreases inputs.len(),
{
    if inputs.len() > 0 {
        held_key_fires_once(inputs.drop_last(), ship, game);
        assert(no_fire_key_went_down(inputs.last()));
    }
}

/// After a frame the ship is inside the viewport, wherever it was before
/// and whatever the keys were.
pub proof fn ship_stays_in_viewport(ship: PlayerShip, input: KeyInput, viewport: Viewport, delta: u32)
    ensures
        viewport.contains(steered(ship, input, viewport, delta).position),
{
}

} // verus!
