//! Lasers: how they leave the ship and when they expire.

use vstd::prelude::*;
use crate::body::{clamped, clamped_add, Body, Collider, Facing, GameLayer, Shape};
use crate::contact::{contact_system, contacts_resolved, ContactReport};
use crate::state::{AppState, ForState};
use crate::timer::{Timer, TimerMode};
use crate::world::{Entity, Kind, Record, World};

verus! {

/// Speed at which a laser leaves the cannon, in map units per second.
pub const MUZZLE_SPEED: i64 = 500;

/// Width of the collider of a laser, in thousandths of a map unit.
pub const LASER_WIDTH: i64 = 2_500;

/// Height of the collider of a laser, in thousandths of a map unit.
pub const LASER_HEIGHT: i64 = 10_000;

/// Time after which a laser that hit nothing is removed, in milliseconds.
pub const LASER_TTL_MILLIS: u32 = 2000;

/// A request to fire a laser.
#[derive(Clone, Copy, Debug, PartialEq, Eq, Structural)]
pub struct LaserSpawnMessage {
    /// Position of the laser, in thousandths of a map unit.
    pub x: i64,
    pub y: i64,
    /// Direction of the laser.
    pub facing: Facing,
    /// Linear velocity of the ship that fires, in thousandths of a map unit
    /// per second.
    pub vx: i64,
    pub vy: i64,
}

/// The tag of a laser entity.
#[derive(Clone, Copy, Debug, PartialEq, Eq, Structural)]
pub struct Laser {
    /// Counts down to the removal of the laser.
    pub despawn_timer: Timer,
}

impl Laser {
    /// A laser that was just fired.
    pub open spec fn fired() -> Laser {
        Laser { despawn_timer: Timer::fresh(2_000_000_000, TimerMode::Once) }
    }

    /// The laser after a step of `delta` nanoseconds, or `None` if its time
    /// is up.
    pub open spec fn aged(self, delta: u64) -> Option<Laser> {
        let timer = self.despawn_timer.ticked(delta);
        if timer.finished {
            None
        } else {
            Some(Laser { despawn_timer: timer })
        }
    }

    /// A laser that was just fired, with two seconds to live.
    pub fn new() -> (laser: Laser)
        ensures
            laser == Laser::fired(),
    {
        Laser { despawn_timer: Timer::from_millis(LASER_TTL_MILLIS, TimerMode::Once) }
    }

    /// Steps the timer of the laser by `delta` nanoseconds and says whether
    /// its time is up.
    pub fn age(&mut self, delta: u64) -> (expired: bool)
        ensures
            expired == old(self).aged(delta) is None,
            final(self).despawn_timer == old(self).despawn_timer.ticked(delta),
    {
        self.despawn_timer.tick(delta);
        self.despawn_timer.finished()
    }
}

impl LaserSpawnMessage {
    /// The body of the laser that this request asks for. Of the velocity of
    /// the ship only the part along y is kept; to it comes the muzzle speed
    /// along the direction of the laser. The laser does not turn.
    pub open spec fn laser_body(self) -> Body {
        Body {
            x: self.x,
            y: self.y,
            vx: (self.facing.x * MUZZLE_SPEED) as i64,
            vy: clamped(self.vy + self.facing.y * MUZZLE_SPEED),
            angvel: 0,
            facing: self.facing,
            force_x: 0,
            force_y: 0,
        }
    }

    /// The body of the laser that this request asks for.
    pub fn body(&self) -> (b: Body)
        ensures
            b == self.laser_body(),
    {
        Body {
            x: self.x,
            y: self.y,
            vx: self.facing.x as i64 * MUZZLE_SPEED,
            vy: clamped_add(self.vy, self.facing.y as i64 * MUZZLE_SPEED),
            angvel: 0,
            facing: self.facing,
            force_x: 0,
            force_y: 0,
        }
    }
}

/// The record of the laser that `message` asks for: a thin sensor that meets
/// asteroids only, with two seconds to live and a life that ends with the
/// session.
pub open spec fn laser_record(message: LaserSpawnMessage) -> Record {
    Record {
        kind: Kind::Laser(Laser::fired()),
        body: Some(message.laser_body()),
        collider: Some(
            Collider {
                shape: Shape::Rectangle { width: LASER_WIDTH, height: LASER_HEIGHT },
                layer: GameLayer::Laser,
                sensor: true,
            },
        ),
        scope: ForState::of_app(AppState::Game),
        visible: true,
    }
}

impl LaserSpawnMessage {
    /// The record of the laser that this request asks for.
    pub fn record(&self) -> (r: Record)
        ensures
            r == laser_record(*self),
    {
        Record {
            kind: Kind::Laser(Laser::new()),
            body: Some(self.body()),
            collider: Some(
                Collider {
                    shape: Shape::Rectangle { width: LASER_WIDTH, height: LASER_HEIGHT },
                    layer: GameLayer::Laser,
                    sensor: true,
                },
            ),
            scope: ForState::app(AppState::Game),
            visible: true,
        }
    }
}

/// Creates the lasers that `messages` ask for, in order, and returns their
/// handles.
pub fn spawn_laser(world: &mut World, messages: &Vec<LaserSpawnMessage>) -> (handles: Vec<Entity>)
    requires
        old(world).entities.slots() + messages@.len() <= u32::MAX,
    ensures
        old(world).entities.grown(
            final(world).entities,
            handles@,
            Seq::new(messages@.len(), |i: int| laser_record(messages@[i])),
        ),
        final(world).same_state(*old(world)),
        old(world).entities.at_most_one_ship() ==> final(world).entities.at_most_one_ship(),
{
    let mut handles: Vec<Entity> = Vec::new();
    let n = messages.len();
    let mut i: usize = 0;
    proof {
        old(world).entities.lemma_grown_none();
        assert(Seq::new(0, |k: int| laser_record(messages@[k])) =~= Seq::<Record>::empty());
    }
    while i < n
        invariant
            n == messages@.len(),
            i <= n,
            old(world).entities.slots() + n <= u32::MAX,
            old(world).entities.grown(
                world.entities,
                handles@,
                Seq::new(i as nat, |k: int| laser_record(messages@[k])),
            ),
            handles@.len() == i,
            world.same_state(*old(world)),
        decreases n - i,
    {
        let ghost before = world.entities;
        let ghost records = Seq::new(i as nat, |k: int| laser_record(messages@[k]));
        let e = world.entities.spawn(messages[i].record());
        proof {
            old(world).entities.lemma_grown_push(
                before,
                world.entities,
                handles@,
                records,
                e,
                laser_record(messages@[i as int]),
            );
            assert(Seq::new((i + 1) as nat, |k: int| laser_record(messages@[k])) =~= records.push(
                laser_record(messages@[i as int]),
            ));
        }
        handles.push(e);
        i += 1;
    }
    handles
}

/// The record of an entity after a step of `delta` nanoseconds of the timer
/// of the laser, if it is one; `None` for a laser whose time is up.
pub open spec fn laser_aged(record: Record, delta: u64) -> Option<Record> {
    match record.kind {
        Kind::Laser(laser) => match laser.aged(delta) {
            Some(aged) => Some(Record { kind: Kind::Laser(aged), ..record }),
            None => None,
        },
        _ => Some(record),
    }
}

/// The ageing of lasers as a rule on records.
pub open spec fn laser_timeout_rule(delta: u64) -> spec_fn(Record) -> Option<Record> {
    |r: Record| laser_aged(r, delta)
}

/// Steps the timer of every laser by `delta` nanoseconds and removes the
/// lasers whose time is up, whatever they did or did not hit.
pub fn laser_timeout_system(world: &mut World, delta: u64)
    ensures
        old(world).entities.stepped(final(world).entities, laser_timeout_rule(delta)),
        final(world).same_state(*old(world)),
        final(world).entities.slots() == old(world).entities.slots(),
        old(world).entities.at_most_one_ship() ==> final(world).entities.at_most_one_ship(),
{
    let n = world.entities.slot_count();
    let mut i: usize = 0;
    while i < n
        invariant
            i <= n,
            n == old(world).entities.slots(),
            old(world).entities.stepped_below(world.entities, laser_timeout_rule(delta), i as int),
            world.same_state(*old(world)),
        decreases n - i,
    {
        let ghost before = world.entities;
        match world.entities.entity_at(i) {
            Some(e) => {
                let expired = match world.entities.record_mut(e) {
                    Some(record) => match &mut record.kind {
                        Kind::Laser(laser) => laser.age(delta),
                        _ => false,
                    },
                    None => false,
                };
                if expired {
                    world.entities.despawn(e);
                }
                proof {
                    old(world).entities.lemma_step_slot(
                        before,
                        world.entities,
                        laser_timeout_rule(delta),
                        e,
                    );
                }
            },
            None => {
                proof {
                    old(world).entities.lemma_skip_slot(before, laser_timeout_rule(delta), i as int);
                }
            },
        }
        i += 1;
    }
    proof {
        old(world).entities.lemma_stepped_all(world.entities, laser_timeout_rule(delta), n as int);
    }
}

/// The contacts of `laser` with each of `targets`, as touching pairs.
pub open spec fn laser_pairs(laser: Entity, targets: Seq<Entity>) -> Seq<(Entity, Entity)> {
    Seq::new(targets.len(), |i: int| (laser, targets[i]))
}

/// Resolves the contacts of the laser `laser` with the entities `targets` it
/// touches: the first asteroid among them is hit, an explosion is shown where
/// the laser was, and the laser is removed, so that it hits nothing more.
pub fn laser_asteroid_collision(world: &mut World, laser: Entity, targets: &Vec<Entity>) -> (report:
    ContactReport)
    ensures
        contacts_resolved(
            *old(world),
            *final(world),
            laser_pairs(laser, targets@),
            report.damage@,
            report.explosions@,
        ),
        old(world).entities.at_most_one_ship() ==> final(world).entities.at_most_one_ship(),
{
    let mut pairs: Vec<(Entity, Entity)> = Vec::new();
    let n = targets.len();
    let mut i: usize = 0;
    while i < n
        invariant
            n == targets@.len(),
            i <= n,
            pairs@ =~= laser_pairs(laser, targets@.take(i as int)),
        decreases n - i,
    {
        pairs.push((laser, targets[i]));
        i += 1;
    }
    proof {
        assert(targets@.take(n as int) =~= targets@);
    }
    contact_system(world, &pairs)
}

} // verus!
