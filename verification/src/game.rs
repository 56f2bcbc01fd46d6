//! One tick of the game: what the systems do before the physics step, and
//! what they make of the contacts that the step reports.

use vstd::prelude::*;
use crate::arena::{movement, wrap_rule};
use crate::asteroid::{
    arena_asteroids,
    asteroid_record,
    cadence_stepped,
    spawn_asteroid_event,
    AsteroidSpawnEvent,
    SPLIT_COUNT,
};
use crate::contact::{
    contact_system,
    contacts_resolved,
    deliver,
    delivered,
    delivered_one,
    ContactLog,
    Damage,
    DeliveryLog,
};
use crate::explosion::{catch_explosion_event, explosion_record, SpawnExplosionEvent};
use crate::hud::{hud_life_system, life_rule, shows_player_one};
use crate::laser::{
    laser_record,
    laser_timeout_rule,
    laser_timeout_system,
    spawn_laser,
    LaserSpawnMessage,
};
use crate::player_ship::{
    ship_input_system,
    ship_steered,
    ship_timers_rule,
    ship_timers_system,
    PlayerInput,
    ShipDamageReport,
};
use crate::state::{GameState, MenuOutcome, Phase};
use crate::world::{Entity, Record, Registry, World};

verus! {

/// What the systems that run before the physics step ask to be created.
#[derive(Clone, Copy, Debug, PartialEq, Eq, Structural)]
pub struct Requests {
    /// The laser that the ship fired.
    pub laser: Option<LaserSpawnMessage>,
    /// The asteroid that arrives.
    pub arrival: Option<AsteroidSpawnEvent>,
}

/// What the systems that run after the physics step did.
#[derive(Debug)]
pub struct FrameReport {
    /// The asteroids created: the arrival first, then the pieces.
    pub asteroids: Vec<Entity>,
    /// The lasers created.
    pub lasers: Vec<Entity>,
    /// The explosions created: those of the lasers first, then those of the
    /// ship.
    pub explosions: Vec<Entity>,
    /// The lives shown on the display.
    pub life: u32,
    /// Whether the ship was destroyed: the session is over.
    pub game_over: bool,
}

impl Requests {
    /// No request.
    pub open spec fn nothing() -> Requests {
        Requests { laser: None, arrival: None }
    }
}

/// The sequence of the one value of `item`, or of nothing.
pub open spec fn listed<T>(item: Option<T>) -> Seq<T> {
    match item {
        Some(value) => seq![value],
        None => Seq::empty(),
    }
}

/// The records of the asteroids that `events` ask for.
pub open spec fn asteroid_records(events: Seq<AsteroidSpawnEvent>) -> Seq<Record> {
    Seq::new(events.len(), |i: int| asteroid_record(events[i]))
}

/// The records of the lasers that `messages` ask for.
pub open spec fn laser_records(messages: Seq<LaserSpawnMessage>) -> Seq<Record> {
    Seq::new(messages.len(), |i: int| laser_record(messages[i]))
}

/// The records of the explosions that `events` ask for.
pub open spec fn explosion_records(events: Seq<SpawnExplosionEvent>) -> Seq<Record> {
    Seq::new(events.len(), |i: int| explosion_record(events[i]))
}

/// The steps before the physics step, with the worlds between them: the ship
/// is steered, the timers of ship and lasers are stepped, the spawn timer of
/// the arena is stepped, and the bodies are wrapped around the field.
pub open spec fn simulation_steps(
    w0: World,
    w1: World,
    w2: World,
    w3: World,
    w4: World,
    w5: World,
    delta: u64,
    ship: Option<Entity>,
    input: PlayerInput,
    requests: Requests,
) -> bool {
    &&& match ship {
        Some(e) => ship_steered(w0, w1, e, input, requests.laser),
        None => w1 == w0 && requests.laser is None,
    }
    &&& w1.entities.stepped(w2.entities, ship_timers_rule(delta)) && w2.same_state(w1)
    &&& w2.entities.stepped(w3.entities, laser_timeout_rule(delta)) && w3.same_state(w2)
    &&& cadence_stepped(w3, w4, delta, requests.arrival)
    &&& w4.entities.stepped(w5.entities, wrap_rule()) && w5.same_state(w4)
}

/// Whether `after` is `before` after the systems that run before the physics
/// step, and `requests` is what they ask for. They run only while the game
/// is running: in any other phase nothing changes and nothing is asked for.
pub open spec fn simulated(
    before: World,
    after: World,
    delta: u64,
    ship: Option<Entity>,
    input: PlayerInput,
    requests: Requests,
) -> bool {
    if before.phase == Phase::Running {
        exists|w1: World, w2: World, w3: World, w4: World| #[trigger]
            simulation_steps(before, w1, w2, w3, w4, after, delta, ship, input, requests)
    } else {
        after == before && requests == Requests::nothing()
    }
}

/// Runs the systems of one tick that come before the physics step, for a step
/// of `delta` nanoseconds: input, timers, spawn cadence and the wrap around
/// the field. `ship` is the ship that `input` steers.
pub fn before_physics(world: &mut World, delta: u64, ship: Option<Entity>, input: PlayerInput) -> (requests:
    Requests)
    ensures
        simulated(*old(world), *final(world), delta, ship, input, requests),
        final(world).entities.slots() == old(world).entities.slots(),
        final(world).phase == old(world).phase,
        old(world).entities.at_most_one_ship() ==> final(world).entities.at_most_one_ship(),
{
    let running = match world.phase {
        Phase::Running => true,
        _ => false,
    };
    if !running {
        return Requests { laser: None, arrival: None };
    }
    let laser = match ship {
        Some(e) => ship_input_system(world, e, input),
        None => None,
    };
    let ghost w1 = *world;
    ship_timers_system(world, delta);
    let ghost w2 = *world;
    laser_timeout_system(world, delta);
    let ghost w3 = *world;
    let arrival = arena_asteroids(world, delta);
    let ghost w4 = *world;
    movement(world);
    let requests = Requests { laser, arrival };
    proof {
        assert(simulation_steps(*old(world), w1, w2, w3, w4, *world, delta, ship, input, requests));
    }
    requests
}

/// The contacts of one tick lead to at most two signals and one explosion
/// for each pair.
pub proof fn lemma_contact_log_is_short(start: Registry, pairs: Seq<(Entity, Entity)>)
    ensures
        ContactLog::of(start, pairs).damage.len() <= 2 * pairs.len(),
        ContactLog::of(start, pairs).explosions.len() <= pairs.len(),
    decreases pairs.len(),
{
    if pairs.len() > 0 {
        lemma_contact_log_is_short(start, pairs.drop_last());
    }
}

/// The score of the arena in `world`, nothing without an arena.
pub open spec fn score_of(world: World) -> nat {
    match world.arena {
        Some(arena) => arena.score as nat,
        None => 0,
    }
}

/// The delivery of damage signals leads to at most one explosion and one set
/// of pieces for each signal. It never lowers the score, and leaves the phase
/// and the number of slots as they are.
pub proof fn lemma_delivery_is_short(
    before: World,
    signals: Seq<Damage>,
    after: World,
    log: DeliveryLog,
)
    requires
        delivered(before, signals, after, log),
    ensures
        log.pieces.len() <= SPLIT_COUNT * signals.len(),
        log.explosions.len() <= signals.len(),
        after.entities.slots() == before.entities.slots(),
        after.phase == before.phase,
        after.arena is Some == before.arena is Some,
        score_of(after) >= score_of(before),
        forall|e: Entity| #[trigger] after.entities.live(e) ==> before.entities.live(e),
    decreases signals.len(),
{
    if signals.len() > 0 {
        let (mid, sofar, ship, pieces) = choose|
            mid: World,
            sofar: DeliveryLog,
            ship: ShipDamageReport,
            pieces: Seq<AsteroidSpawnEvent>,
        |
            delivered(before, signals.drop_last(), mid, sofar) && #[trigger] delivered_one(
                mid,
                sofar,
                signals.last(),
                ship,
                pieces,
                after,
                log,
            );
        lemma_delivery_is_short(before, signals.drop_last(), mid, sofar);
        assert forall|e: Entity| #[trigger] after.entities.live(e) implies before.entities.live(
            e,
        ) by {
            if e != signals.last().entity {
                assert(after.entities.live(e) == mid.entities.live(e));
            }
            assert(mid.entities.live(e));
        }
    }
}

/// The steps after the physics step, with the worlds and the events between
/// them: the contacts are resolved, the damage is delivered, the asteroids,
/// lasers and explosions that were asked for are created, the display shows
/// the lives of the ship, and the session ends if the ship was destroyed.
pub open spec fn reaction_steps(
    w0: World,
    w1: World,
    w2: World,
    w3: World,
    w4: World,
    w5: World,
    w6: World,
    w7: World,
    pairs: Seq<(Entity, Entity)>,
    requests: Requests,
    damage: Seq<Damage>,
    flashes: Seq<SpawnExplosionEvent>,
    log: DeliveryLog,
    asteroids: Seq<Entity>,
    lasers: Seq<Entity>,
    explosions: Seq<Entity>,
    life: u32,
) -> bool {
    &&& contacts_resolved(w0, w1, pairs, damage, flashes)
    &&& delivered(w1, damage, w2, log)
    &&& w2.entities.grown(
        w3.entities,
        asteroids,
        asteroid_records(listed(requests.arrival) + log.pieces),
    ) && w3.same_state(w2)
    &&& w3.entities.grown(w4.entities, lasers, laser_records(listed(requests.laser)))
        && w4.same_state(w3)
    &&& w4.entities.grown(w5.entities, explosions, explosion_records(flashes + log.explosions))
        && w5.same_state(w4)
    &&& shows_player_one(w5.entities, life) && w5.entities.stepped(w6.entities, life_rule(life))
        && w6.same_state(w5)
    &&& World::applied(
        w6,
        w7,
        MenuOutcome {
            next_game: if log.game_over {
                Some(GameState::Over)
            } else {
                None
            },
            ..MenuOutcome::nothing()
        },
    )
}

impl FrameReport {
    /// The report of a tick in which nothing ran.
    pub open spec fn idle(&self) -> bool {
        &&& self.asteroids@.len() == 0
        &&& self.lasers@.len() == 0
        &&& self.explosions@.len() == 0
        &&& self.life == 0
        &&& !self.game_over
    }
}

/// Whether `after` is `before` after the systems that run after the physics
/// step, and `report` says what they did. They run only while the game is
/// running: in any other phase nothing changes.
pub open spec fn reacted(
    before: World,
    after: World,
    pairs: Seq<(Entity, Entity)>,
    requests: Requests,
    report: FrameReport,
) -> bool {
    if before.phase == Phase::Running {
        exists|
            w1: World,
            w2: World,
            w3: World,
            w4: World,
            w5: World,
            w6: World,
            damage: Seq<Damage>,
            flashes: Seq<SpawnExplosionEvent>,
            log: DeliveryLog,
        | #[trigger]
            reaction_steps(
                before,
                w1,
                w2,
                w3,
                w4,
                w5,
                w6,
                after,
                pairs,
                requests,
                damage,
                flashes,
                log,
                report.asteroids@,
                report.lasers@,
                report.explosions@,
                report.life,
            ) && report.game_over == log.game_over
    } else {
        after == before && report.idle()
    }
}

/// Adds the items of `more` to the end of `items`.
fn extend<T: Copy>(items: &mut Vec<T>, more: &Vec<T>)
    ensures
        final(items)@ == old(items)@ + more@,
{
    let n = more.len();
    let mut i: usize = 0;
    while i < n
        invariant
            n == more@.len(),
            i <= n,
            items@ == old(items)@ + more@.take(i as int),
        decreases n - i,
    {
        items.push(more[i]);
        proof {
            assert(more@.take(i + 1) =~= more@.take(i as int).push(more@[i as int]));
        }
        i += 1;
    }
    proof {
        assert(more@.take(n as int) =~= more@);
    }
}

/// Runs the systems of one tick that come after the physics step: `pairs` are
/// the contacts that began in the step, `requests` what the systems before
/// the step asked for. The contacts are resolved and the damage delivered,
/// then what was asked for is created, and last the session ends if the ship
/// was destroyed.
pub fn after_physics(world: &mut World, pairs: &Vec<(Entity, Entity)>, requests: Requests) -> (report:
    FrameReport)
    requires
        old(world).entities.slots() + 11 * pairs@.len() + 2 <= u32::MAX,
    ensures
        reacted(*old(world), *final(world), pairs@, requests, report),
        old(world).entities.at_most_one_ship() ==> final(world).entities.at_most_one_ship(),
{
    let running = match world.phase {
        Phase::Running => true,
        _ => false,
    };
    if !running {
        return FrameReport {
            asteroids: Vec::new(),
            lasers: Vec::new(),
            explosions: Vec::new(),
            life: 0,
            game_over: false,
        };
    }
    let contacts = contact_system(world, pairs);
    let ghost w1 = *world;
    let delivery = deliver(world, &contacts.damage);
    let ghost w2 = *world;
    proof {
        lemma_contact_log_is_short(old(world).entities, pairs@);
        lemma_delivery_is_short(w1, contacts.damage@, w2, delivery@);
    }
    let mut arrivals: Vec<AsteroidSpawnEvent> = Vec::new();
    if let Some(arrival) = requests.arrival {
        arrivals.push(arrival);
    }
    extend(&mut arrivals, &delivery.pieces);
    let mut shots: Vec<LaserSpawnMessage> = Vec::new();
    if let Some(laser) = requests.laser {
        shots.push(laser);
    }
    let mut flashes: Vec<SpawnExplosionEvent> = Vec::new();
    extend(&mut flashes, &contacts.explosions);
    extend(&mut flashes, &delivery.explosions);
    proof {
        assert(arrivals@ =~= listed(requests.arrival) + delivery@.pieces);
        assert(shots@ =~= listed(requests.laser));
        assert(flashes@ =~= contacts.explosions@ + delivery@.explosions);
    }
    let asteroids = spawn_asteroid_event(world, &arrivals);
    let ghost w3 = *world;
    let lasers = spawn_laser(world, &shots);
    let ghost w4 = *world;
    let explosions = catch_explosion_event(world, &flashes);
    let ghost w5 = *world;
    let life = hud_life_system(world);
    let ghost w6 = *world;
    let outcome = MenuOutcome {
        next_app: None,
        next_game: if delivery.game_over {
            Some(GameState::Over)
        } else {
            None
        },
        physics: None,
        exit: false,
    };
    world.apply(outcome);
    let report = FrameReport { asteroids, lasers, explosions, life, game_over: delivery.game_over };
    proof {
        assert(reaction_steps(
            *old(world),
            w1,
            w2,
            w3,
            w4,
            w5,
            w6,
            *world,
            pairs@,
            requests,
            contacts.damage@,
            contacts.explosions@,
            delivery@,
            report.asteroids@,
            report.lasers@,
            report.explosions@,
            report.life,
        ));
    }
    report
}

} // verus!
