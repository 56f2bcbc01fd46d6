//! Explosions: short effects that grow and vanish.

use vstd::prelude::*;
use crate::body::Body;
use crate::state::{AppState, ForState, Phase};
use crate::timer::{Timer, TimerMode};
use crate::world::{Entity, Kind, Record, World};

verus! {

/// What blew up.
#[derive(Clone, Copy, Debug, PartialEq, Eq, Structural)]
pub enum ExplosionKind {
    ShipDead,
    ShipContact,
    LaserOnAsteroid,
}

/// A request to show an explosion at `(x, y)`.
#[derive(Clone, Copy, Debug, PartialEq, Eq, Structural)]
pub struct SpawnExplosionEvent {
    pub kind: ExplosionKind,
    pub x: i64,
    pub y: i64,
}

/// The tag of an explosion entity. Its picture is scaled from `start_scale`
/// to `end_scale`, both in thousandths, over the run of `timer`.
#[derive(Clone, Copy, Debug, PartialEq, Eq, Structural)]
pub struct Explosion {
    pub kind: ExplosionKind,
    pub timer: Timer,
    pub start_scale: u32,
    pub end_scale: u32,
}

impl ExplosionKind {
    /// Scale that an explosion of this kind grows to, in thousandths.
    pub open spec fn final_scale(self) -> u32 {
        match self {
            ExplosionKind::ShipDead => 5000,
            ExplosionKind::ShipContact => 2000,
            ExplosionKind::LaserOnAsteroid => 1500,
        }
    }

    /// Time that an explosion of this kind lasts, in milliseconds.
    pub open spec fn lifetime_millis(self) -> u32 {
        match self {
            ExplosionKind::ShipDead => 2000,
            ExplosionKind::ShipContact => 1000,
            ExplosionKind::LaserOnAsteroid => 1000,
        }
    }

    /// Width and height of the picture at scale one, in thousandths of a map
    /// unit.
    pub open spec fn extent(self) -> (i64, i64) {
        match self {
            ExplosionKind::ShipDead => (42_000, 39_000),
            ExplosionKind::ShipContact => (42_000, 39_000),
            ExplosionKind::LaserOnAsteroid => (36_000, 32_000),
        }
    }

    /// Width and height of the picture at scale one.
    pub fn size(&self) -> (s: (i64, i64))
        ensures
            s == self.extent(),
    {
        match self {
            ExplosionKind::ShipDead => (42_000, 39_000),
            ExplosionKind::ShipContact => (42_000, 39_000),
            ExplosionKind::LaserOnAsteroid => (36_000, 32_000),
        }
    }
}

impl Explosion {
    /// A new explosion of `kind`.
    pub open spec fn of(kind: ExplosionKind) -> Explosion {
        Explosion {
            kind,
            timer: Timer::fresh((kind.lifetime_millis() * 1_000_000) as u64, TimerMode::Once),
            start_scale: 1000,
            end_scale: kind.final_scale(),
        }
    }

    /// The explosion after a step of `delta` nanoseconds, or `None` if it is
    /// over.
    pub open spec fn aged(self, delta: u64) -> Option<Explosion> {
        let timer = self.timer.ticked(delta);
        if timer.finished {
            None
        } else {
            Some(Explosion { timer, ..self })
        }
    }

    /// Scale of the picture now, in thousandths: it moves from the start
    /// scale to the end scale in step with the timer. With a timer of no
    /// duration it is the end scale.
    pub open spec fn scale_now(self) -> int {
        if self.timer.duration == 0 {
            self.end_scale as int
        } else {
            self.start_scale + (self.end_scale - self.start_scale) * self.timer.elapsed / (
            self.timer.duration as int)
        }
    }

    /// A new explosion of `kind`.
    pub fn new(kind: ExplosionKind) -> (explosion: Explosion)
        ensures
            explosion == Explosion::of(kind),
    {
        let (end_scale, millis): (u32, u32) = match kind {
            ExplosionKind::ShipDead => (5000, 2000),
            ExplosionKind::ShipContact => (2000, 1000),
            ExplosionKind::LaserOnAsteroid => (1500, 1000),
        };
        Explosion {
            kind,
            timer: Timer::from_millis(millis, TimerMode::Once),
            start_scale: 1000,
            end_scale,
        }
    }

    /// Steps the timer of the explosion by `delta` nanoseconds and says
    /// whether it is over.
    pub fn age(&mut self, delta: u64) -> (over: bool)
        ensures
            over == old(self).aged(delta) is None,
            *final(self) == (Explosion { timer: old(self).timer.ticked(delta), ..*old(self) }),
    {
        self.timer.tick(delta);
        self.timer.finished()
    }

    /// Scale of the picture now, in thousandths.
    pub fn scale(&self) -> (s: i128)
        ensures
            s == self.scale_now(),
    {
        if self.timer.duration() == 0 {
            self.end_scale as i128
        } else {
            let span: i128 = self.end_scale as i128 - self.start_scale as i128;
            let elapsed: i128 = self.timer.elapsed() as i128;
            let duration: i128 = self.timer.duration() as i128;
            assert(-0x1_0000_0000 * 0x1_0000_0000_0000_0000 <= span * elapsed <= 0x1_0000_0000
                * 0x1_0000_0000_0000_0000) by (nonlinear_arith)
                requires
                    -0x1_0000_0000 <= span <= 0x1_0000_0000,
                    0 <= elapsed <= 0x1_0000_0000_0000_0000,
            ;
            let grown: i128 = span * elapsed;
            let step: i128 = floor_div(grown, duration);
            assert(-0x1_0000_0000 * 0x1_0000_0000_0000_0000 - 1 <= step <= 0x1_0000_0000
                * 0x1_0000_0000_0000_0000) by (nonlinear_arith)
                requires
                    step == grown / duration,
                    duration >= 1,
                    -0x1_0000_0000 * 0x1_0000_0000_0000_0000 <= grown <= 0x1_0000_0000
                        * 0x1_0000_0000_0000_0000,
            ;
            self.start_scale as i128 + step
        }
    }
}

/// `a / b` rounded down, for a positive `b`.
fn floor_div(a: i128, b: i128) -> (q: i128)
    requires
        b > 0,
        a > i128::MIN,
    ensures
        q == a / b,
{
    if a >= 0 {
        a / b
    } else {
        let m: i128 = -a;
        let q: i128 = m / b;
        let r: i128 = m % b;
        proof {
            assert(m == q * b + r && 0 <= r < b) by (nonlinear_arith)
                requires
                    q == m / b,
                    r == m % b,
                    b > 0,
                    m >= 0,
            ;
            if r == 0 {
                assert(a == (-q) * b) by (nonlinear_arith)
                    requires
                        a == -m,
                        m == q * b + r,
                        r == 0,
                ;
                vstd::arithmetic::div_mod::lemma_fundamental_div_mod_converse(
                    a as int,
                    b as int,
                    -q as int,
                    0,
                );
            } else {
                assert(a == (-q - 1) * b + (b - r)) by (nonlinear_arith)
                    requires
                        a == -m,
                        m == q * b + r,
                ;
                vstd::arithmetic::div_mod::lemma_fundamental_div_mod_converse(
                    a as int,
                    b as int,
                    (-q - 1) as int,
                    (b - r) as int,
                );
            }
        }
        if r == 0 {
            -q
        } else {
            -q - 1
        }
    }
}

/// The record of the explosion that `event` asks for: at rest where the
/// event says, with a life that ends with the session.
pub open spec fn explosion_record(event: SpawnExplosionEvent) -> Record {
    Record {
        kind: Kind::Explosion(Explosion::of(event.kind)),
        body: Some(Body::placed(event.x, event.y, 0, 0, 0)),
        collider: None,
        scope: ForState::of_app(AppState::Game),
        visible: true,
    }
}

impl SpawnExplosionEvent {
    /// The record of the explosion that this event asks for.
    pub fn record(&self) -> (r: Record)
        ensures
            r == explosion_record(*self),
    {
        Record {
            kind: Kind::Explosion(Explosion::new(self.kind)),
            body: Some(Body::new(self.x, self.y, 0, 0, 0)),
            collider: None,
            scope: ForState::app(AppState::Game),
            visible: true,
        }
    }
}

/// Creates the explosions that `events` ask for, in order, and returns their
/// handles.
pub fn catch_explosion_event(world: &mut World, events: &Vec<SpawnExplosionEvent>) -> (handles: Vec<
    Entity,
>)
    requires
        old(world).entities.slots() + events@.len() <= u32::MAX,
    ensures
        old(world).entities.grown(
            final(world).entities,
            handles@,
            Seq::new(events@.len(), |i: int| explosion_record(events@[i])),
        ),
        final(world).same_state(*old(world)),
        old(world).entities.at_most_one_ship() ==> final(world).entities.at_most_one_ship(),
{
    let mut handles: Vec<Entity> = Vec::new();
    let n = events.len();
    let mut i: usize = 0;
    proof {
        old(world).entities.lemma_grown_none();
        assert(Seq::new(0, |k: int| explosion_record(events@[k])) =~= Seq::<Record>::empty());
    }
    while i < n
        invariant
            n == events@.len(),
            i <= n,
            old(world).entities.slots() + n <= u32::MAX,
            old(world).entities.grown(
                world.entities,
                handles@,
                Seq::new(i as nat, |k: int| explosion_record(events@[k])),
            ),
            handles@.len() == i,
            world.same_state(*old(world)),
        decreases n - i,
    {
        let ghost before = world.entities;
        let ghost records = Seq::new(i as nat, |k: int| explosion_record(events@[k]));
        let e = world.entities.spawn(events[i].record());
        proof {
            old(world).entities.lemma_grown_push(
                before,
                world.entities,
                handles@,
                records,
                e,
                explosion_record(events@[i as int]),
            );
            assert(Seq::new((i + 1) as nat, |k: int| explosion_record(events@[k]))
                =~= records.push(explosion_record(events@[i as int])));
        }
        handles.push(e);
        i += 1;
    }
    handles
}

/// The record of an entity after a step of `delta` nanoseconds of the timer
/// of the explosion, if it is one; `None` for an explosion that is over.
pub open spec fn explosion_aged(record: Record, delta: u64) -> Option<Record> {
    match record.kind {
        Kind::Explosion(explosion) => match explosion.aged(delta) {
            Some(aged) => Some(Record { kind: Kind::Explosion(aged), ..record }),
            None => None,
        },
        _ => Some(record),
    }
}

/// The ageing of explosions as a rule on records. While the game is paused
/// explosions stand still.
pub open spec fn explosion_rule(phase: Phase, delta: u64) -> spec_fn(Record) -> Option<Record> {
    |r: Record|
        if phase == Phase::Paused {
            Some(r)
        } else {
            explosion_aged(r, delta)
        }
}

/// Steps the timer of every explosion by `delta` nanoseconds and removes the
/// explosions that are over. While the game is paused nothing is stepped.
pub fn animate_explosion(world: &mut World, delta: u64)
    ensures
        old(world).entities.stepped(
            final(world).entities,
            explosion_rule(old(world).phase, delta),
        ),
        final(world).same_state(*old(world)),
        final(world).entities.slots() == old(world).entities.slots(),
        old(world).entities.at_most_one_ship() ==> final(world).entities.at_most_one_ship(),
{
    let ghost rule = explosion_rule(world.phase, delta);
    let paused = match world.phase {
        Phase::Paused => true,
        _ => false,
    };
    let n = world.entities.slot_count();
    let mut i: usize = 0;
    while i < n
        invariant
            i <= n,
            n == old(world).entities.slots(),
            rule == explosion_rule(old(world).phase, delta),
            paused == (old(world).phase == Phase::Paused),
            old(world).entities.stepped_below(world.entities, rule, i as int),
            world.same_state(*old(world)),
        decreases n - i,
    {
        let ghost before = world.entities;
        match world.entities.entity_at(i) {
            Some(e) => {
                let over = if paused {
                    false
                } else {
                    match world.entities.record_mut(e) {
                        Some(record) => match &mut record.kind {
                            Kind::Explosion(explosion) => explosion.age(delta),
                            _ => false,
                        },
                        None => false,
                    }
                };
                if over {
                    world.entities.despawn(e);
                }
                proof {
                    old(world).entities.lemma_step_slot(before, world.entities, rule, e);
                }
            },
            None => {
                proof {
                    old(world).entities.lemma_skip_slot(before, rule, i as int);
                }
            },
        }
        i += 1;
    }
    proof {
        old(world).entities.lemma_stepped_all(world.entities, rule, n as int);
    }
}

} // verus!
