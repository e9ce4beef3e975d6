//! Fixed-point positions, headings and the viewport.
//!
//! Coordinates are whole numbers of *steps*. A world unit is [`UNIT`] steps,
//! time is counted in microseconds and speeds in world units per second, so
//! that `speed * delta` is a distance in steps with nothing rounded.

use vstd::prelude::*;

verus! {

/// Steps per world unit, and microseconds per second.
pub const UNIT: i64 = 1_000_000;

/// A point of the plane, in steps.
#[derive(Clone, Copy, Debug, PartialEq, Eq, Structural)]
pub struct Point {
    pub x: i64,
    pub y: i64,
}

impl Point {
    /// The point at `x` and `y` world units.
    pub fn from_units(x: i32, y: i32) -> (p: Point)
        ensures
            p.x == x * UNIT,
            p.y == y * UNIT,
    {
        Point { x: x as i64 * UNIT, y: y as i64 * UNIT }
    }
}

/// One of the four axis directions an entity can face, named by the arrow key
/// that selects it.
#[derive(Clone, Copy, Debug, PartialEq, Eq, Structural)]
pub enum Heading {
    Up,
    Left,
    Down,
    Right,
}

/// A vector turned a quarter of a circle counter-clockwise.
pub open spec fn quarter_turn(v: (int, int)) -> (int, int) {
    (-v.1, v.0)
}

/// A vector turned `quarters` quarter circles counter-clockwise.
pub open spec fn turned(v: (int, int), quarters: nat) -> (int, int)
    decreases quarters,
{
    if quarters == 0 {
        v
    } else {
        quarter_turn(turned(v, (quarters - 1) as nat))
    }
}

impl Heading {
    /// The rotation in degrees, counter-clockwise from the forward vector.
    pub open spec fn spec_degrees(self) -> u16 {
        match self {
            Heading::Up => 0,
            Heading::Left => 90,
            Heading::Down => 180,
            Heading::Right => 270,
        }
    }

    /// The unit vector that the heading points along.
    pub open spec fn spec_direction(self) -> (i8, i8) {
        match self {
            Heading::Up => (0i8, 1i8),
            Heading::Left => (-1i8, 0i8),
            Heading::Down => (0i8, -1i8),
            Heading::Right => (1i8, 0i8),
        }
    }

    #[verifier::when_used_as_spec(spec_degrees)]
    pub fn degrees(self) -> (angle: u16)
        ensures
            angle == self.degrees(),
    {
        match self {
            Heading::Up => 0,
            Heading::Left => 90,
            Heading::Down => 180,
            Heading::Right => 270,
        }
    }

    #[verifier::when_used_as_spec(spec_direction)]
    pub fn direction(self) -> (d: (i8, i8))
        ensures
            d == self.direction(),
    {
        match self {
            Heading::Up => (0, 1),
            Heading::Left => (-1, 0),
            Heading::Down => (0, -1),
            Heading::Right => (1, 0),
        }
    }

    /// The direction of a heading is the forward vector `(0, 1)` turned by
    /// the heading's rotation: a vector of length one along a single axis.
    pub proof fn direction_is_forward_turned(self)
        ensures
            self.degrees() % 90 == 0,
            self.degrees() < 360,
            (self.direction().0 as int, self.direction().1 as int) == turned(
                (0, 1),
                (self.degrees() / 90) as nat,
            ),
            -1 <= self.direction().0 <= 1,
            -1 <= self.direction().1 <= 1,
            (self.direction().0 == 0) != (self.direction().1 == 0),
    {
        reveal_with_fuel(turned, 4);
    }
}

/// The visible area: a rectangle of `width` by `height` steps centred on the
/// origin.
#[derive(Clone, Copy, Debug, PartialEq, Eq, Structural)]
pub struct Viewport {
    pub width: u64,
    pub height: u64,
}

impl Viewport {
    /// The viewport of `width` by `height` world units.
    pub fn from_units(width: u32, height: u32) -> (viewport: Viewport)
        ensures
            viewport.width == width * UNIT,
            viewport.height == height * UNIT,
    {
        Viewport { width: width as u64 * (UNIT as u64), height: height as u64 * (UNIT as u64) }
    }

    /// The largest visible `x`; the smallest is its negation.
    pub open spec fn spec_half_width(self) -> i64 {
        (self.width / 2) as i64
    }

    /// The largest visible `y`; the smallest is its negation.
    pub open spec fn spec_half_height(self) -> i64 {
        (self.height / 2) as i64
    }

    #[verifier::when_used_as_spec(spec_half_width)]
    pub fn half_width(self) -> (half: i64)
        ensures
            half == self.half_width(),
            half == self.width / 2,
    {
        (self.width / 2) as i64
    }

    #[verifier::when_used_as_spec(spec_half_height)]
    pub fn half_height(self) -> (half: i64)
        ensures
            half == self.half_height(),
            half == self.height / 2,
    {
        (self.height / 2) as i64
    }

    /// Whether `p` lies inside the viewport, its edges included.
    pub open spec fn contains(self, p: Point) -> bool {
        &&& -self.half_width() <= p.x <= self.half_width()
        &&& -self.half_height() <= p.y <= self.half_height()
    }
}

/// `v` limited to the closed interval from `low` to `high`.
pub open spec fn clamp_int(v: int, low: int, high: int) -> int {
    if v < low {
        low
    } else if v > high {
        high
    } else {
        v
    }
}

/// Where the coordinate `start` is after `delta` microseconds at `speed`
/// units per second along `direction`, with no limit applied.
pub open spec fn advanced(start: int, direction: int, speed: int, delta: int) -> int {
    start + direction * (speed * delta)
}

/// Moves `start` by `direction * speed * delta` steps and limits the result to
/// `low ..= high`.
pub fn advance_clamped(
    start: i64,
    direction: i8,
    speed: u32,
    delta: u32,
    low: i64,
    high: i64,
) -> (end: i64)
    requires
        -1 <= direction <= 1,
        low <= high,
    ensures
        end == clamp_int(
            advanced(start as int, direction as int, speed as int, delta as int),
            low as int,
            high as int,
        ),
{
    assert(0 <= (speed as int) * (delta as int) <= 0xffff_ffff * 0xffff_ffff) by (nonlinear_arith)
        requires
            0 <= speed <= 0xffff_ffff,
            0 <= delta <= 0xffff_ffff,
    ;
    let distance: i128 = (speed as i128) * (delta as i128);
    let signed: i128 = if direction < 0 {
        -distance
    } else if direction > 0 {
        distance
    } else {
        0
    };
    assert(signed as int == (direction as int) * ((speed as int) * (delta as int))) by (nonlinear_arith)
        requires
            -1 <= direction <= 1,
            distance as int == (speed as int) * (delta as int),
            direction < 0 ==> signed as int == -(distance as int),
            direction > 0 ==> signed as int == distance as int,
            direction == 0 ==> signed as int == 0,
    ;
    let target: i128 = (start as i128) + signed;
    if target < low as i128 {
        low
    } else if target > high as i128 {
        high
    } else {
        target as i64
    }
}

} // verus!
