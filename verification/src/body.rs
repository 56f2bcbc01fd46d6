//! Where a physics body is and how it moves.

use vstd::prelude::*;

verus! {

/// `n` confined to the range of `i64`.
pub open spec fn clamped(n: int) -> i64 {
    if n < i64::MIN {
        i64::MIN
    } else if n > i64::MAX {
        i64::MAX
    } else {
        n as i64
    }
}

/// `a + b`, stopping at the ends of the range of `i64`.
pub fn clamped_add(a: i64, b: i64) -> (sum: i64)
    ensures
        sum == clamped(a + b),
{
    let wide: i128 = a as i128 + b as i128;
    if wide < i64::MIN as i128 {
        i64::MIN
    } else if wide > i64::MAX as i128 {
        i64::MAX
    } else {
        wide as i64
    }
}

/// The direction a body points to, in thousandths of a unit vector.
#[derive(Clone, Copy, Debug, PartialEq, Eq, Structural)]
pub struct Facing {
    pub x: i16,
    pub y: i16,
}

impl Facing {
    /// Straight up, the direction of a body that was never turned.
    pub open spec fn upward() -> Facing {
        Facing { x: 0, y: 1000 }
    }

    /// Straight up, the direction of a body that was never turned.
    pub fn up() -> (f: Facing)
        ensures
            f == Facing::upward(),
    {
        Facing { x: 0, y: 1000 }
    }
}

/// Position, heading and motion of one entity, as the physics step left them.
#[derive(Clone, Copy, Debug, PartialEq, Eq, Structural)]
pub struct Body {
    /// Position, in thousandths of a map unit.
    pub x: i64,
    pub y: i64,
    /// Linear velocity, in thousandths of a map unit per second.
    pub vx: i64,
    pub vy: i64,
    /// Angular velocity, in milliradians per second.
    pub angvel: i64,
    /// The direction the body points to.
    pub facing: Facing,
    /// Force that pushes the body, in thousandths of a newton.
    pub force_x: i64,
    pub force_y: i64,
}

/// The groups that decide which bodies can touch each other.
#[derive(Clone, Copy, Debug, PartialEq, Eq, Structural)]
pub enum GameLayer {
    Player,
    Laser,
    Asteroid,
}

/// The outline of a body, in thousandths of a map unit.
#[derive(Clone, Copy, Debug, PartialEq, Eq, Structural)]
pub enum Shape {
    Circle { radius: i64 },
    Rectangle { width: i64, height: i64 },
}

/// What the physics step needs to find the contacts of a body.
#[derive(Clone, Copy, Debug, PartialEq, Eq, Structural)]
pub struct Collider {
    pub shape: Shape,
    pub layer: GameLayer,
    /// A sensor reports contacts and pushes nothing.
    pub sensor: bool,
}

impl GameLayer {
    /// Whether a body of this layer looks for contacts with bodies of layer
    /// `other`: an asteroid with everything, the ship and a laser only with
    /// asteroids.
    pub open spec fn filters(self, other: GameLayer) -> bool {
        self == GameLayer::Asteroid || other == GameLayer::Asteroid
    }

    /// Whether bodies of the two layers can touch. Both have to look for the
    /// other.
    pub open spec fn touches(self, other: GameLayer) -> bool {
        self.filters(other) && other.filters(self)
    }

    /// Whether bodies of the two layers can touch.
    pub fn interacts(self, other: GameLayer) -> (b: bool)
        ensures
            b == self.touches(other),
            b == (self == GameLayer::Asteroid || other == GameLayer::Asteroid),
    {
        match (self, other) {
            (GameLayer::Asteroid, _) => true,
            (_, GameLayer::Asteroid) => true,
            _ => false,
        }
    }
}

impl Body {
    /// A body at `(x, y)` that points up, moves as given and is not pushed.
    pub open spec fn placed(x: i64, y: i64, vx: i64, vy: i64, angvel: i64) -> Body {
        Body { x, y, vx, vy, angvel, facing: Facing::upward(), force_x: 0, force_y: 0 }
    }

    /// A body at `(x, y)` that points up, moves as given and is not pushed.
    pub fn new(x: i64, y: i64, vx: i64, vy: i64, angvel: i64) -> (b: Body)
        ensures
            b == Body::placed(x, y, vx, vy, angvel),
    {
        Body { x, y, vx, vy, angvel, facing: Facing::up(), force_x: 0, force_y: 0 }
    }
}

} // verus!
