//! Contacts: which touching pairs of entities hurt whom.

use vstd::prelude::*;
use crate::asteroid::{asteroid_damaged, on_asteroid_damage, AsteroidSpawnEvent};
use crate::explosion::{ExplosionKind, SpawnExplosionEvent};
use crate::player_ship::{on_ship_damage, ship_damaged, ShipDamageReport};
use crate::world::{Entity, Kind, Registry, World};

verus! {

/// The signal that an entity was hit.
#[derive(Clone, Copy, Debug, PartialEq, Eq, Structural)]
pub struct Damage {
    pub entity: Entity,
}

/// Which of the kinds that matter in a contact an entity has.
#[derive(Clone, Copy, Debug, PartialEq, Eq, Structural)]
pub struct Tags {
    pub ship: bool,
    pub laser: bool,
    pub asteroid: bool,
}

/// A touching pair, by kind: the member that is a ship, the one that is an
/// asteroid and the one that is a laser, as far as there is one.
#[derive(Clone, Copy, Debug, PartialEq, Eq, Structural)]
pub struct Contact {
    pub ship: Option<Entity>,
    pub asteroid: Option<Entity>,
    pub laser: Option<Entity>,
}

/// What the contacts of one tick lead to.
#[derive(Debug)]
pub struct ContactReport {
    /// The entities that were hit, in the order of the contacts.
    pub damage: Vec<Damage>,
    /// The explosions to show, in the order of the contacts.
    pub explosions: Vec<SpawnExplosionEvent>,
}

/// What the contacts lead to, as mathematical values, with the lasers that
/// were used up.
pub struct ContactLog {
    pub gone: Set<Entity>,
    pub damage: Seq<Damage>,
    pub explosions: Seq<SpawnExplosionEvent>,
}

impl Kind {
    /// The tags of an entity of this kind.
    pub open spec fn tags_of(&self) -> Tags {
        Tags { ship: self is Ship, laser: self is Laser, asteroid: self is Asteroid }
    }

    /// The tags of an entity of this kind.
    pub fn tags(&self) -> (t: Tags)
        ensures
            t == self.tags_of(),
    {
        match self {
            Kind::Ship(_) => Tags { ship: true, laser: false, asteroid: false },
            Kind::Laser(_) => Tags { ship: false, laser: true, asteroid: false },
            Kind::Asteroid(_) => Tags { ship: false, laser: false, asteroid: true },
            _ => Tags { ship: false, laser: false, asteroid: false },
        }
    }
}

/// The member of a pair that has a tag: the first if it has it, else the
/// second if that one has it.
pub open spec fn tagged(first: Entity, first_has: bool, second: Entity, second_has: bool) -> Option<
    Entity,
> {
    if first_has {
        Some(first)
    } else if second_has {
        Some(second)
    } else {
        None
    }
}

/// The pair `(first, second)` by kind.
pub open spec fn classified(first: Entity, first_tags: Tags, second: Entity, second_tags: Tags)
    -> Contact {
    Contact {
        ship: tagged(first, first_tags.ship, second, second_tags.ship),
        asteroid: tagged(first, first_tags.asteroid, second, second_tags.asteroid),
        laser: tagged(first, first_tags.laser, second, second_tags.laser),
    }
}

impl Contact {
    /// The ship that is damaged: the ship of a pair that also holds an
    /// asteroid.
    pub open spec fn ship_hit(self) -> Option<Entity> {
        if self.asteroid is Some {
            self.ship
        } else {
            None
        }
    }

    /// The asteroid that is destroyed and the laser that destroys it, for a
    /// pair that holds both.
    pub open spec fn laser_hit(self) -> Option<(Entity, Entity)> {
        match (self.asteroid, self.laser) {
            (Some(asteroid), Some(laser)) => Some((asteroid, laser)),
            _ => None,
        }
    }
}

/// Sorts the members of a touching pair by kind. The order of the pair does
/// not matter where each member has one kind.
pub fn classify(first: Entity, first_tags: Tags, second: Entity, second_tags: Tags) -> (contact:
    Contact)
    ensures
        contact == classified(first, first_tags, second, second_tags),
{
    let ship = if first_tags.ship {
        Some(first)
    } else if second_tags.ship {
        Some(second)
    } else {
        None
    };
    let asteroid = if first_tags.asteroid {
        Some(first)
    } else if second_tags.asteroid {
        Some(second)
    } else {
        None
    };
    let laser = if first_tags.laser {
        Some(first)
    } else if second_tags.laser {
        Some(second)
    } else {
        None
    };
    Contact { ship, asteroid, laser }
}

/// A pair of a ship and an asteroid damages the ship and a pair of a laser
/// and an asteroid destroys the asteroid, in whichever order the pair comes.
/// Two asteroids, or a ship and a laser, do nothing to each other.
pub proof fn lemma_contact_is_symmetric(a: Entity, a_kind: Kind, b: Entity, b_kind: Kind)
    ensures
        classified(a, a_kind.tags_of(), b, b_kind.tags_of()).ship_hit() == classified(
            b,
            b_kind.tags_of(),
            a,
            a_kind.tags_of(),
        ).ship_hit(),
        classified(a, a_kind.tags_of(), b, b_kind.tags_of()).laser_hit() == classified(
            b,
            b_kind.tags_of(),
            a,
            a_kind.tags_of(),
        ).laser_hit(),
        a_kind is Ship && b_kind is Asteroid ==> classified(
            a,
            a_kind.tags_of(),
            b,
            b_kind.tags_of(),
        ).ship_hit() == Some(a),
        a_kind is Laser && b_kind is Asteroid ==> classified(
            a,
            a_kind.tags_of(),
            b,
            b_kind.tags_of(),
        ).laser_hit() == Some((b, a)),
        a_kind is Asteroid && b_kind is Asteroid ==> classified(
            a,
            a_kind.tags_of(),
            b,
            b_kind.tags_of(),
        ).ship_hit() is None && classified(a, a_kind.tags_of(), b, b_kind.tags_of()).laser_hit()
            is None,
        a_kind is Ship && b_kind is Laser ==> classified(
            a,
            a_kind.tags_of(),
            b,
            b_kind.tags_of(),
        ).ship_hit() is None && classified(a, a_kind.tags_of(), b, b_kind.tags_of()).laser_hit()
            is None,
{
}

impl ContactLog {
    /// The log of no contacts.
    pub open spec fn empty() -> ContactLog {
        ContactLog { gone: Set::empty(), damage: Seq::empty(), explosions: Seq::empty() }
    }

    /// Whether `e` was alive in `start` and was not used up since.
    pub open spec fn present(self, start: Registry, e: Entity) -> bool {
        start.live(e) && !self.gone.contains(e)
    }

    /// The log after one more pair. A pair with a member that is gone is
    /// dropped. Else a ship that touches an asteroid is hit; and an asteroid
    /// that touches a laser is hit, the laser is used up, and an explosion
    /// is shown where the laser was, if it had a body.
    pub open spec fn with_pair(self, start: Registry, pair: (Entity, Entity)) -> ContactLog {
        if self.present(start, pair.0) && self.present(start, pair.1) {
            let contact = classified(
                pair.0,
                start.record(pair.0).kind.tags_of(),
                pair.1,
                start.record(pair.1).kind.tags_of(),
            );
            let damage = match contact.ship_hit() {
                Some(ship) => self.damage.push(Damage { entity: ship }),
                None => self.damage,
            };
            match contact.laser_hit() {
                Some((asteroid, laser)) => ContactLog {
                    gone: self.gone.insert(laser),
                    damage: damage.push(Damage { entity: asteroid }),
                    explosions: match start.record(laser).body {
                        Some(body) => self.explosions.push(
                            SpawnExplosionEvent {
                                kind: ExplosionKind::LaserOnAsteroid,
                                x: body.x,
                                y: body.y,
                            },
                        ),
                        None => self.explosions,
                    },
                },
                None => ContactLog { damage, ..self },
            }
        } else {
            self
        }
    }

    /// The log of the contacts `pairs`, taken in order, in a world that
    /// starts as `start`.
    pub open spec fn of(start: Registry, pairs: Seq<(Entity, Entity)>) -> ContactLog
        decreases pairs.len(),
    {
        if pairs.len() == 0 {
            ContactLog::empty()
        } else {
            ContactLog::of(start, pairs.drop_last()).with_pair(start, pairs.last())
        }
    }
}

/// Whether `after` is `before` with the contacts `pairs` resolved, and
/// `damage` and `explosions` are what they led to: the signals and the
/// explosions are those of the log of the pairs, the lasers that the log uses
/// up are gone, and every other entity is as it was.
pub open spec fn contacts_resolved(
    before: World,
    after: World,
    pairs: Seq<(Entity, Entity)>,
    damage: Seq<Damage>,
    explosions: Seq<SpawnExplosionEvent>,
) -> bool {
    let log = ContactLog::of(before.entities, pairs);
    &&& damage == log.damage
    &&& explosions == log.explosions
    &&& forall|e: Entity| (#[trigger] after.entities.live(e)) == log.present(before.entities, e)
    &&& forall|e: Entity| #[trigger]
        after.entities.live(e) ==> after.entities.record(e) == before.entities.record(e)
    &&& after.entities.slots() == before.entities.slots()
    &&& after.same_state(before)
}

/// Resolves the contacts that began in this tick, in order: ships that touch
/// an asteroid are hit, asteroids that touch a laser are hit and the laser is
/// removed at once, so that it counts in no later contact.
pub fn contact_system(world: &mut World, pairs: &Vec<(Entity, Entity)>) -> (report: ContactReport)
    ensures
        contacts_resolved(*old(world), *final(world), pairs@, report.damage@, report.explosions@),
        old(world).entities.at_most_one_ship() ==> final(world).entities.at_most_one_ship(),
{
    let mut damage: Vec<Damage> = Vec::new();
    let mut explosions: Vec<SpawnExplosionEvent> = Vec::new();
    let ghost start = world.entities;
    let ghost mut log = ContactLog::empty();
    let n = pairs.len();
    let mut k: usize = 0;
    proof {
        assert(pairs@.take(0) =~= Seq::empty());
    }
    while k < n
        invariant
            n == pairs@.len(),
            k <= n,
            start == old(world).entities,
            log == ContactLog::of(start, pairs@.take(k as int)),
            damage@ == log.damage,
            explosions@ == log.explosions,
            forall|e: Entity| (#[trigger] world.entities.live(e)) == log.present(start, e),
            forall|e: Entity| #[trigger]
                world.entities.live(e) ==> world.entities.record(e) == start.record(e),
            world.entities.slots() == start.slots(),
            world.same_state(*old(world)),
        decreases n - k,
    {
        let (a, b) = pairs[k];
        proof {
            assert(pairs@.take(k + 1).drop_last() =~= pairs@.take(k as int));
            assert(pairs@.take(k + 1).last() == pairs@[k as int]);
        }
        let first = match world.entities.get(a) {
            Some(record) => Some(record.kind.tags()),
            None => None,
        };
        let second = match world.entities.get(b) {
            Some(record) => Some(record.kind.tags()),
            None => None,
        };
        match (first, second) {
            (Some(first_tags), Some(second_tags)) => {
                let contact = classify(a, first_tags, b, second_tags);
                if let (Some(ship), Some(_)) = (contact.ship, contact.asteroid) {
                    damage.push(Damage { entity: ship });
                }
                if let (Some(laser), Some(asteroid)) = (contact.laser, contact.asteroid) {
                    damage.push(Damage { entity: asteroid });
                    let place = match world.entities.get(laser) {
                        Some(record) => record.body,
                        None => None,
                    };
                    if let Some(body) = place {
                        explosions.push(
                            SpawnExplosionEvent {
                                kind: ExplosionKind::LaserOnAsteroid,
                                x: body.x,
                                y: body.y,
                            },
                        );
                    }
                    world.entities.despawn(laser);
                }
                proof {
                    log = log.with_pair(start, (a, b));
                }
            },
            _ => {
                proof {
                    log = log.with_pair(start, (a, b));
                }
            },
        }
        k += 1;
    }
    proof {
        assert(pairs@.take(n as int) =~= pairs@);
    }
    ContactReport { damage, explosions }
}

/// What a damage signal led to.
#[derive(Debug)]
pub struct DamageEffect {
    /// What the hit did, if it was a ship that was hit.
    pub ship: ShipDamageReport,
    /// The requests for the pieces, if it was an asteroid that was destroyed.
    pub pieces: Vec<AsteroidSpawnEvent>,
}

/// Whether `after` is `before` with the damage signal `signal` delivered. A
/// signal that names a ship is applied as one for a ship and leaves the arena
/// alone; any other is applied as one for an asteroid.
pub open spec fn damage_applied(
    before: World,
    after: World,
    signal: Damage,
    ship: ShipDamageReport,
    pieces: Seq<AsteroidSpawnEvent>,
) -> bool {
    if before.entities.live(signal.entity) && before.entities.record(signal.entity).kind is Ship {
        &&& ship_damaged(before, after, signal.entity, ship)
        &&& after.arena == before.arena
        &&& pieces.len() == 0
    } else {
        &&& asteroid_damaged(before, after, signal.entity, pieces)
        &&& ship == ShipDamageReport::nothing()
    }
}

/// Delivers a damage signal to the entity it names: a ship takes the hit, an
/// asteroid is destroyed. A signal for an entity that is gone, or for any
/// other entity, changes nothing.
pub fn trigger_damage(world: &mut World, signal: Damage) -> (effect: DamageEffect)
    ensures
        damage_applied(*old(world), *final(world), signal, effect.ship, effect.pieces@),
        old(world).entities.at_most_one_ship() ==> final(world).entities.at_most_one_ship(),
{
    let is_ship = match world.entities.get(signal.entity) {
        Some(record) => record.kind.tags().ship,
        None => false,
    };
    if is_ship {
        let ship = on_ship_damage(world, signal.entity);
        DamageEffect { ship, pieces: Vec::new() }
    } else {
        let pieces = on_asteroid_damage(world, signal.entity);
        DamageEffect { ship: ShipDamageReport { hit: None, explosion: None, next_game: None }, pieces }
    }
}

/// What the delivery of a run of damage signals led to, as mathematical
/// values.
pub struct DeliveryLog {
    /// The explosions of the ships that were hit, in order.
    pub explosions: Seq<SpawnExplosionEvent>,
    /// The requests for the pieces of the asteroids destroyed, in order.
    pub pieces: Seq<AsteroidSpawnEvent>,
    /// Whether a ship was destroyed.
    pub game_over: bool,
}

/// What the delivery of a run of damage signals led to.
#[derive(Debug)]
pub struct Delivery {
    /// The explosions of the ships that were hit, in order.
    pub explosions: Vec<SpawnExplosionEvent>,
    /// The requests for the pieces of the asteroids destroyed, in order.
    pub pieces: Vec<AsteroidSpawnEvent>,
    /// Whether a ship was destroyed.
    pub game_over: bool,
}

impl DeliveryLog {
    /// The log of no delivery.
    pub open spec fn empty() -> DeliveryLog {
        DeliveryLog { explosions: Seq::empty(), pieces: Seq::empty(), game_over: false }
    }

    /// The log with what one more signal led to.
    pub open spec fn with(self, ship: ShipDamageReport, pieces: Seq<AsteroidSpawnEvent>)
        -> DeliveryLog {
        DeliveryLog {
            explosions: match ship.explosion {
                Some(explosion) => self.explosions.push(explosion),
                None => self.explosions,
            },
            pieces: self.pieces + pieces,
            game_over: self.game_over || ship.next_game is Some,
        }
    }
}

impl Delivery {
    /// The delivery as mathematical values.
    pub open spec fn view(&self) -> DeliveryLog {
        DeliveryLog {
            explosions: self.explosions@,
            pieces: self.pieces@,
            game_over: self.game_over,
        }
    }
}

/// Whether `after` and `log` come from `mid` and `sofar` by delivering
/// `signal`, where `ship` and `pieces` are what the signal led to.
pub open spec fn delivered_one(
    mid: World,
    sofar: DeliveryLog,
    signal: Damage,
    ship: ShipDamageReport,
    pieces: Seq<AsteroidSpawnEvent>,
    after: World,
    log: DeliveryLog,
) -> bool {
    damage_applied(mid, after, signal, ship, pieces) && log == sofar.with(ship, pieces)
}

/// Whether `after` is `before` with the damage signals `signals` delivered
/// one after the other, and `log` is what they led to.
pub open spec fn delivered(before: World, signals: Seq<Damage>, after: World, log: DeliveryLog)
    -> bool
    decreases signals.len(),
{
    if signals.len() == 0 {
        after == before && log == DeliveryLog::empty()
    } else {
        exists|mid: World, sofar: DeliveryLog, ship: ShipDamageReport, pieces: Seq<AsteroidSpawnEvent>|
            #![trigger delivered_one(mid, sofar, signals.last(), ship, pieces, after, log)]
            delivered(before, signals.drop_last(), mid, sofar) && delivered_one(
                mid,
                sofar,
                signals.last(),
                ship,
                pieces,
                after,
                log,
            )
    }
}

/// Delivers the damage signals `signals` in order. A signal for an entity
/// that an earlier one removed changes nothing: an asteroid is destroyed, and
/// counted, once.
pub fn deliver(world: &mut World, signals: &Vec<Damage>) -> (delivery: Delivery)
    ensures
        delivered(*old(world), signals@, *final(world), delivery@),
        final(world).entities.slots() == old(world).entities.slots(),
        final(world).phase == old(world).phase,
        final(world).physics_running == old(world).physics_running,
        old(world).entities.at_most_one_ship() ==> final(world).entities.at_most_one_ship(),
{
    let mut delivery = Delivery { explosions: Vec::new(), pieces: Vec::new(), game_over: false };
    let n = signals.len();
    let mut k: usize = 0;
    proof {
        assert(signals@.take(0) =~= Seq::empty());
    }
    while k < n
        invariant
            n == signals@.len(),
            k <= n,
            delivered(*old(world), signals@.take(k as int), *world, delivery@),
            old(world).entities.at_most_one_ship() ==> world.entities.at_most_one_ship(),
            world.entities.slots() == old(world).entities.slots(),
            world.phase == old(world).phase,
            world.physics_running == old(world).physics_running,
        decreases n - k,
    {
        let ghost mid = *world;
        let ghost sofar = delivery@;
        let effect = trigger_damage(world, signals[k]);
        if let Some(explosion) = effect.ship.explosion {
            delivery.explosions.push(explosion);
        }
        if effect.ship.next_game.is_some() {
            delivery.game_over = true;
        }
        let m = effect.pieces.len();
        let mut j: usize = 0;
        while j < m
            invariant
                m == effect.pieces@.len(),
                j <= m,
                delivery.pieces@ == sofar.pieces + effect.pieces@.take(j as int),
                delivery.explosions@ == sofar.with(effect.ship, effect.pieces@).explosions,
                delivery.game_over == sofar.with(effect.ship, effect.pieces@).game_over,
            decreases m - j,
        {
            delivery.pieces.push(effect.pieces[j]);
            proof {
                assert(effect.pieces@.take(j + 1) =~= effect.pieces@.take(j as int).push(
                    effect.pieces@[j as int],
                ));
            }
            j += 1;
        }
        proof {
            assert(effect.pieces@.take(m as int) =~= effect.pieces@);
            assert(signals@.take(k + 1).drop_last() =~= signals@.take(k as int));
            assert(signals@.take(k + 1).last() == signals@[k as int]);
            assert(delivery@ == sofar.with(effect.ship, effect.pieces@));
            assert(delivered(*old(world), signals@.take(k + 1).drop_last(), mid, sofar));
            assert(delivered_one(
                mid,
                sofar,
                signals@.take(k + 1).last(),
                effect.ship,
                effect.pieces@,
                *world,
                delivery@,
            ));
        }
        k += 1;
    }
    proof {
        assert(signals@.take(n as int) =~= signals@);
    }
    delivery
}

} // verus!
