//! The play field: its bounds, the score and the cadence of new asteroids,
//! and the rule that wraps bodies around the edges.

use vstd::prelude::*;
use crate::body::Body;
use crate::timer::{Timer, TimerMode};
use crate::world::{Record, World};

verus! {

/// Width of the play field, in thousandths of a map unit. The field is
/// centred at the origin.
pub const ARENA_WIDTH: i64 = 1_280_000;

/// Height of the play field, in thousandths of a map unit.
pub const ARENA_HEIGHT: i64 = 800_000;

/// Time until the first asteroid arrives, in milliseconds.
pub const FIRST_SPAWN_MILLIS: u32 = 5000;

/// State of one game session.
#[derive(Clone, Copy, Debug, PartialEq, Eq, Structural)]
pub struct Arena {
    /// Counts down to the next asteroid.
    pub asteroid_spawn_timer: Timer,
    /// Points gained by destroying asteroids.
    pub score: u32,
}

impl Arena {
    /// The arena at the start of a session.
    pub open spec fn initial() -> Arena {
        Arena {
            asteroid_spawn_timer: Timer::fresh(5_000_000_000, TimerMode::Once),
            score: 0,
        }
    }
}

impl Arena {
    /// The arena of a new session: no points, and five seconds until the
    /// first asteroid.
    pub fn new() -> (arena: Arena)
        ensures
            arena == Arena::initial(),
    {
        Arena {
            asteroid_spawn_timer: Timer::from_millis(FIRST_SPAWN_MILLIS, TimerMode::Once),
            score: 0,
        }
    }
}

/// Gives the world the arena of a new session, in place of the one it may
/// have had: the score starts at nothing.
pub fn spawn_arena(world: &mut World)
    ensures
        final(world).arena == Some(Arena::initial()),
        final(world).entities == old(world).entities,
        final(world).phase == old(world).phase,
        final(world).physics_running == old(world).physics_running,
{
    world.arena = Some(Arena::new());
}

/// One coordinate after the wrap. A body that is past an edge and still moves
/// outward is put on the opposite edge; any other stays where it is.
pub open spec fn wrapped_axis(position: i64, velocity: i64, half: i64) -> i64 {
    if position < -half && velocity < 0 {
        half
    } else if position > half && velocity > 0 {
        (-half) as i64
    } else {
        position
    }
}

/// A body after the wrap: both coordinates wrapped, nothing else changed.
pub open spec fn wrapped(body: Body) -> Body {
    Body {
        x: wrapped_axis(body.x, body.vx, (ARENA_WIDTH / 2) as i64),
        y: wrapped_axis(body.y, body.vy, (ARENA_HEIGHT / 2) as i64),
        ..body
    }
}

/// Wraps one coordinate. `half` is half the extent of the field along it.
pub fn wrap_axis(position: i64, velocity: i64, half: i64) -> (p: i64)
    requires
        0 <= half,
    ensures
        p == wrapped_axis(position, velocity, half),
{
    if position < -half && velocity < 0 {
        half
    } else if position > half && velocity > 0 {
        -half
    } else {
        position
    }
}

/// Wraps a body around the edges of the play field. The velocity is kept: the
/// body is moved, not bounced.
pub fn wrap(body: Body) -> (b: Body)
    ensures
        b == wrapped(body),
{
    Body {
        x: wrap_axis(body.x, body.vx, ARENA_WIDTH / 2),
        y: wrap_axis(body.y, body.vy, ARENA_HEIGHT / 2),
        ..body
    }
}

/// The record of an entity after the wrap of its body, if it has one.
pub open spec fn moved(record: Record) -> Record {
    Record {
        body: match record.body {
            Some(body) => Some(wrapped(body)),
            None => None,
        },
        ..record
    }
}

/// The wrap as a rule on records: it removes nothing.
pub open spec fn wrap_rule() -> spec_fn(Record) -> Option<Record> {
    |r: Record| Some(moved(r))
}

/// Wraps every body of the world around the edges of the play field.
/// Entities without a body are passed over.
pub fn movement(world: &mut World)
    ensures
        old(world).entities.stepped(final(world).entities, wrap_rule()),
        final(world).same_state(*old(world)),
        final(world).entities.slots() == old(world).entities.slots(),
        old(world).entities.at_most_one_ship() ==> final(world).entities.at_most_one_ship(),
{
    let n = world.entities.slot_count();
    let mut i: usize = 0;
    while i < n
        invariant
            i <= n,
            n == old(world).entities.slots(),
            old(world).entities.stepped_below(world.entities, wrap_rule(), i as int),
            world.same_state(*old(world)),
        decreases n - i,
    {
        let ghost before = world.entities;
        match world.entities.entity_at(i) {
            Some(e) => {
                if let Some(record) = world.entities.record_mut(e) {
                    if let Some(body) = record.body {
                        record.body = Some(wrap(body));
                    }
                }
                proof {
                    old(world).entities.lemma_step_slot(before, world.entities, wrap_rule(), e);
                }
            },
            None => {
                proof {
                    old(world).entities.lemma_skip_slot(before, wrap_rule(), i as int);
                }
            },
        }
        i += 1;
    }
    proof {
        old(world).entities.lemma_stepped_all(world.entities, wrap_rule(), n as int);
    }
}

/// Inside the field, edges included, the wrap changes nothing.
pub proof fn lemma_wrap_inside(body: Body)
    requires
        -ARENA_WIDTH / 2 <= body.x <= ARENA_WIDTH / 2,
        -ARENA_HEIGHT / 2 <= body.y <= ARENA_HEIGHT / 2,
    ensures
        wrapped(body) == body,
{
}

/// A body that moves inward, or not at all, is never moved by the wrap,
/// wherever it is.
pub proof fn lemma_wrap_inward(body: Body)
    requires
        body.x < 0 ==> body.vx >= 0,
        body.x > 0 ==> body.vx <= 0,
        body.y < 0 ==> body.vy >= 0,
        body.y > 0 ==> body.vy <= 0,
    ensures
        wrapped(body) == body,
{
}

/// Wrapping twice is wrapping once, and a wrapped body lies on an edge or
/// where it was.
pub proof fn lemma_wrap_idempotent(body: Body)
    ensures
        wrapped(wrapped(body)) == wrapped(body),
        wrapped(body).vx == body.vx && wrapped(body).vy == body.vy,
        wrapped(body).x == body.x || wrapped(body).x == ARENA_WIDTH / 2 || wrapped(body).x
            == -ARENA_WIDTH / 2,
        wrapped(body).y == body.y || wrapped(body).y == ARENA_HEIGHT / 2 || wrapped(body).y
            == -ARENA_HEIGHT / 2,
{
}

} // verus!
