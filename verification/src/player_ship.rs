//! The ship: steering, firing, damage and the time of invincibility after a
//! hit.

use vstd::prelude::*;
use crate::body::{Body, Collider, GameLayer, Shape};
use crate::contact::Damage;
use crate::explosion::{ExplosionKind, SpawnExplosionEvent};
use crate::laser::LaserSpawnMessage;
use crate::state::{AppState, ForState, GameState};
use crate::timer::{Timer, TimerMode};
use crate::world::{Entity, Kind, Record, Registry, World};

verus! {

/// Radius of the collider of the ship, in thousandths of a map unit.
pub const SHIP_RADIUS: i64 = 13_500;

/// Lives of a new ship.
pub const START_LIFE: u32 = 3;

/// Time for which a hit makes the ship invincible, in nanoseconds.
pub const INVINCIBLE_TIME: u64 = 2_000_000_000;

/// Renewed invincibility ends once this much time was spent in it, in
/// nanoseconds.
pub const MAX_INVINCIBLE_TIME: u64 = 5_000_000_000;

/// Least time between two shots, in milliseconds.
pub const CANNON_RELOAD_MILLIS: u32 = 200;

/// What the player can ask of the ship.
#[derive(Clone, Copy, Debug, PartialEq, Eq, Hash, Structural)]
pub enum PlayerAction {
    Forward,
    RotateLeft,
    RotateRight,
    Fire,
}

/// The actions that are held down in this tick.
#[derive(Clone, Copy, Debug, PartialEq, Eq, Structural)]
pub struct PlayerInput {
    pub forward: bool,
    pub rotate_left: bool,
    pub rotate_right: bool,
    pub fire: bool,
}

impl PlayerInput {
    /// Whether `action` is held down.
    pub open spec fn holds(self, action: PlayerAction) -> bool {
        match action {
            PlayerAction::Forward => self.forward,
            PlayerAction::RotateLeft => self.rotate_left,
            PlayerAction::RotateRight => self.rotate_right,
            PlayerAction::Fire => self.fire,
        }
    }

    /// The turn that is asked for: 1 to the left, -1 to the right, 0 for
    /// none. Left wins over right.
    pub open spec fn turn(self) -> int {
        if self.rotate_left {
            1
        } else if self.rotate_right {
            -1
        } else {
            0
        }
    }

    /// Whether `action` is held down.
    pub fn pressed(&self, action: PlayerAction) -> (b: bool)
        ensures
            b == self.holds(action),
    {
        match action {
            PlayerAction::Forward => self.forward,
            PlayerAction::RotateLeft => self.rotate_left,
            PlayerAction::RotateRight => self.rotate_right,
            PlayerAction::Fire => self.fire,
        }
    }
}

/// The tag of the ship entity.
#[derive(Clone, Copy, Debug, PartialEq, Eq, Structural)]
pub struct Ship {
    /// Turn rate while a turn is held, in milliradians per second.
    pub rotation_speed: i32,
    /// Force of the engine while thrust is held, in newtons.
    pub thrust: i32,
    /// Lives left.
    pub life: u32,
    /// Runs from one shot to the moment the cannon can fire again.
    pub cannon_timer: Timer,
    /// The player at the controls: 1 or 2.
    pub player_id: u32,
    /// Runs from a hit to the end of the invincibility it gives.
    pub invincible_timer: Timer,
    /// Time spent in invincibility before the last renewal, in nanoseconds.
    pub invincible_time: u64,
}

/// How a hit ended for the ship.
#[derive(Clone, Copy, Debug, PartialEq, Eq, Structural)]
pub enum ShipHit {
    /// The last life is gone.
    Destroyed,
    /// A life is gone and the ship is invincible for a while.
    Damaged,
    /// The ship was invincible, and is now for a full period again.
    Renewed,
    /// The ship was invincible and its invincibility was not renewed.
    Absorbed,
}

/// What the ship does in one tick.
#[derive(Clone, Copy, Debug, PartialEq, Eq, Structural)]
pub struct ShipCommand {
    /// The new angular velocity, in milliradians per second, if the ship
    /// turns.
    pub angvel: Option<i64>,
    /// Force of the engine, in thousandths of a newton.
    pub force_x: i64,
    pub force_y: i64,
    /// The laser that the ship fires, if it does.
    pub laser: Option<LaserSpawnMessage>,
}

/// Colour of the ship, each part in thousandths.
#[derive(Clone, Copy, Debug, PartialEq, Eq, Structural)]
pub struct ShipColor {
    pub red: u32,
    pub green: u32,
    pub blue: u32,
    pub alpha: u32,
}

impl Ship {
    /// The ship at the start of a session: three lives, ready to fire and not
    /// invincible.
    pub open spec fn launched() -> Ship {
        Ship {
            rotation_speed: 3000,
            thrust: 300_000,
            life: START_LIFE,
            cannon_timer: Timer::fresh(200_000_000, TimerMode::Once),
            player_id: 1,
            invincible_timer: Timer {
                elapsed: INVINCIBLE_TIME,
                duration: INVINCIBLE_TIME,
                mode: TimerMode::Once,
                finished: true,
            },
            invincible_time: 0,
        }
    }

    /// Whether a hit costs a life: the time of invincibility is over.
    pub open spec fn vulnerable(self) -> bool {
        self.invincible_timer.finished
    }

    /// Time of invincibility that is left, in nanoseconds.
    pub open spec fn invincible_left(self) -> nat {
        if self.vulnerable() {
            0
        } else {
            self.invincible_timer.time_left()
        }
    }

    /// Whether a hit on the invincible ship renews its invincibility: the
    /// time spent in it, the running period included, is below the cap.
    pub open spec fn renewable(self) -> bool {
        self.invincible_time + self.invincible_timer.elapsed < MAX_INVINCIBLE_TIME
    }

    /// How a hit ends for this ship.
    pub open spec fn hit_outcome(self) -> ShipHit {
        if self.vulnerable() {
            if self.life <= 1 {
                ShipHit::Destroyed
            } else {
                ShipHit::Damaged
            }
        } else if self.renewable() {
            ShipHit::Renewed
        } else {
            ShipHit::Absorbed
        }
    }

    /// The ship after a hit. A vulnerable ship loses a life, if it has one,
    /// and its invincibility starts anew. An invincible ship loses nothing;
    /// if its invincibility can be renewed, the time of the running period
    /// is added to the time spent and the period starts over.
    pub open spec fn hit(self) -> Ship {
        if self.vulnerable() {
            Ship {
                life: if self.life == 0 {
                    0
                } else {
                    (self.life - 1) as u32
                },
                invincible_time: 0,
                invincible_timer: self.invincible_timer.rewound(),
                ..self
            }
        } else if self.renewable() {
            Ship {
                invincible_time: (self.invincible_time + self.invincible_timer.elapsed) as u64,
                invincible_timer: self.invincible_timer.rewound(),
                ..self
            }
        } else {
            self
        }
    }

    /// The ship after a step of `delta` nanoseconds of both its timers.
    pub open spec fn aged(self, delta: u64) -> Ship {
        Ship {
            cannon_timer: self.cannon_timer.ticked(delta),
            invincible_timer: self.invincible_timer.ticked(delta),
            ..self
        }
    }

    /// Whether the ship fires when `input` is held.
    pub open spec fn fires(self, input: PlayerInput) -> bool {
        input.fire && self.cannon_timer.finished
    }

    /// The ship after it reacted to `input`: the cannon reloads if it fired.
    pub open spec fn steered(self, input: PlayerInput) -> Ship {
        if self.fires(input) {
            Ship { cannon_timer: self.cannon_timer.rewound(), ..self }
        } else {
            self
        }
    }

    /// What the ship with body `body` does when `input` is held. It turns at
    /// its turn rate, to the left or to the right, while a turn is held and
    /// else keeps its angular velocity. The engine pushes along the heading while thrust is held.
    /// The laser starts where the ship is, with its heading and velocity.
    pub open spec fn command(self, body: Body, input: PlayerInput) -> ShipCommand {
        ShipCommand {
            angvel: if input.turn() > 0 {
                Some(self.rotation_speed as i64)
            } else if input.turn() < 0 {
                Some((-self.rotation_speed) as i64)
            } else {
                None
            },
            force_x: if input.forward {
                (body.facing.x * self.thrust) as i64
            } else {
                0
            },
            force_y: if input.forward {
                (body.facing.y * self.thrust) as i64
            } else {
                0
            },
            laser: if self.fires(input) {
                Some(
                    LaserSpawnMessage {
                        x: body.x,
                        y: body.y,
                        facing: body.facing,
                        vx: body.vx,
                        vy: body.vy,
                    },
                )
            } else {
                None
            },
        }
    }

    /// Colour of the ship: white while it is vulnerable; while it is
    /// invincible an orange whose opacity rises from nothing to full twice a
    /// second.
    pub open spec fn color(self) -> ShipColor {
        if self.vulnerable() {
            ShipColor { red: 1000, green: 1000, blue: 1000, alpha: 1000 }
        } else {
            ShipColor {
                red: 1000,
                green: 400,
                blue: 200,
                alpha: ((self.invincible_timer.elapsed * 2) % 1_000_000_000 / 1_000_000) as u32,
            }
        }
    }

    /// Takes a hit and says how it ended.
    pub fn take_hit(&mut self) -> (outcome: ShipHit)
        ensures
            *final(self) == old(self).hit(),
            outcome == old(self).hit_outcome(),
    {
        if self.invincible_timer.finished() {
            self.invincible_time = 0;
            self.life = self.life.saturating_sub(1);
            self.invincible_timer.reset();
            if self.life == 0 {
                ShipHit::Destroyed
            } else {
                ShipHit::Damaged
            }
        } else {
            let spent: u128 = self.invincible_time as u128 + self.invincible_timer.elapsed() as u128;
            if spent < MAX_INVINCIBLE_TIME as u128 {
                self.invincible_time = spent as u64;
                self.invincible_timer.reset();
                ShipHit::Renewed
            } else {
                ShipHit::Absorbed
            }
        }
    }

    /// Steps both timers of the ship by `delta` nanoseconds.
    pub fn age(&mut self, delta: u64)
        ensures
            *final(self) == old(self).aged(delta),
    {
        self.cannon_timer.tick(delta);
        self.invincible_timer.tick(delta);
    }

    /// Reacts to the input of one tick: says what the ship does, and reloads
    /// the cannon if it fired.
    pub fn steer(&mut self, body: &Body, input: PlayerInput) -> (command: ShipCommand)
        ensures
            command == old(self).command(*body, input),
            *final(self) == old(self).steered(input),
    {
        let angvel = if input.pressed(PlayerAction::RotateLeft) {
            Some(self.rotation_speed as i64)
        } else if input.pressed(PlayerAction::RotateRight) {
            Some(-(self.rotation_speed as i64))
        } else {
            None
        };
        let forward = input.pressed(PlayerAction::Forward);
        proof {
            lemma_force_fits(body.facing.x, self.thrust);
            lemma_force_fits(body.facing.y, self.thrust);
        }
        let force_x: i64 = if forward {
            body.facing.x as i64 * self.thrust as i64
        } else {
            0
        };
        let force_y: i64 = if forward {
            body.facing.y as i64 * self.thrust as i64
        } else {
            0
        };
        let laser = if input.pressed(PlayerAction::Fire) && self.cannon_timer.finished() {
            self.cannon_timer.reset();
            Some(
                LaserSpawnMessage {
                    x: body.x,
                    y: body.y,
                    facing: body.facing,
                    vx: body.vx,
                    vy: body.vy,
                },
            )
        } else {
            None
        };
        ShipCommand { angvel, force_x, force_y, laser }
    }

    /// Colour in which the ship is drawn.
    pub fn invincible_color(&self) -> (c: ShipColor)
        ensures
            c == self.color(),
            c.alpha <= 1000,
    {
        if self.invincible_timer.finished() {
            ShipColor { red: 1000, green: 1000, blue: 1000, alpha: 1000 }
        } else {
            let doubled: u128 = self.invincible_timer.elapsed() as u128 * 2;
            let alpha: u128 = doubled % 1_000_000_000 / 1_000_000;
            ShipColor { red: 1000, green: 400, blue: 200, alpha: alpha as u32 }
        }
    }
}

/// The product of a heading and a thrust fits in 64 bits.
proof fn lemma_force_fits(heading: i16, thrust: i32)
    ensures
        i64::MIN <= heading * thrust <= i64::MAX,
{
    assert(-0x8000_0000_0000 <= heading * thrust <= 0x8000_0000_0000) by (nonlinear_arith)
        requires
            -0x8000 <= heading <= 0x8000,
            -0x8000_0000 <= thrust <= 0x8000_0000,
    ;
}

impl Ship {
    /// The ship of a new session.
    pub fn new() -> (ship: Ship)
        ensures
            ship == Ship::launched(),
    {
        let mut invincible_timer = Timer::new(INVINCIBLE_TIME, TimerMode::Once);
        // Used up at once: a new ship is not invincible.
        invincible_timer.tick(INVINCIBLE_TIME);
        Ship {
            rotation_speed: 3000,
            thrust: 300_000,
            life: START_LIFE,
            cannon_timer: Timer::from_millis(CANNON_RELOAD_MILLIS, TimerMode::Once),
            player_id: 1,
            invincible_timer,
            invincible_time: 0,
        }
    }
}

/// A hit never takes more than one life and never gives one. It costs a life
/// exactly when the ship is vulnerable and has one, and the ship is destroyed
/// exactly when a vulnerable ship is left with none.
pub proof fn lemma_hit_costs_at_most_one_life(ship: Ship)
    ensures
        ship.hit().life <= ship.life,
        ship.life - ship.hit().life <= 1,
        ship.hit().life < ship.life <==> ship.vulnerable() && ship.life > 0,
        ship.hit_outcome() == ShipHit::Destroyed <==> ship.vulnerable() && ship.hit().life == 0,
        ship.vulnerable() ==> !ship.hit().vulnerable(),
{
}

/// The time spent in renewed invincibility stays below the cap. A hit on an
/// invincible ship either renews the full period, or, once the time spent
/// with the running period reaches the cap, changes nothing at all.
pub proof fn lemma_invincibility_is_capped(ship: Ship)
    requires
        ship.invincible_time < MAX_INVINCIBLE_TIME,
    ensures
        ship.hit().invincible_time < MAX_INVINCIBLE_TIME,
        !ship.vulnerable() && !ship.renewable() ==> ship.hit() == ship,
        !ship.vulnerable() && ship.renewable() ==> ship.hit().invincible_left()
            == ship.invincible_timer.duration && ship.hit().invincible_time >= ship.invincible_time,
        !ship.vulnerable() ==> ship.hit().life == ship.life,
{
}

/// What a hit did to the ship.
#[derive(Clone, Copy, Debug, PartialEq, Eq, Structural)]
pub struct ShipDamageReport {
    /// How the hit ended, or `None` if the signal named no ship.
    pub hit: Option<ShipHit>,
    /// The explosion to show.
    pub explosion: Option<SpawnExplosionEvent>,
    /// The session state to move to: `Over`, when the ship is destroyed.
    pub next_game: Option<GameState>,
}

/// The record of the ship of a new session: at rest in the middle of the
/// field, with a round collider, and a life that ends with the session.
pub open spec fn ship_record() -> Record {
    Record {
        kind: Kind::Ship(Ship::launched()),
        body: Some(Body::placed(0, 0, 0, 0, 0)),
        collider: Some(
            Collider {
                shape: Shape::Circle { radius: SHIP_RADIUS },
                layer: GameLayer::Player,
                sensor: false,
            },
        ),
        scope: ForState::of_app(AppState::Game),
        visible: true,
    }
}

impl Registry {
    /// Whether a ship is alive.
    pub open spec fn has_ship(&self) -> bool {
        exists|e: Entity| #[trigger] self.live(e) && self.record(e).kind is Ship
    }
}

/// Whether `after` is `before` with the ship of a new session put in, and
/// `ship` is its handle. If a ship was alive already, nothing changed and
/// `ship` names a ship that was alive; else `ship` is new and nothing else
/// changed.
pub open spec fn ship_spawned(before: World, after: World, ship: Entity) -> bool {
    &&& after.same_state(before)
    &&& after.entities.live(ship)
    &&& after.entities.record(ship).kind is Ship
    &&& before.entities.slots() <= after.entities.slots() <= before.entities.slots() + 1
    &&& if before.entities.has_ship() {
        after.entities == before.entities
    } else {
        &&& !before.entities.live(ship)
        &&& after.entities.record(ship) == ship_record()
        &&& after.entities.same_but(before.entities, ship)
    }
}

/// Puts the ship of a new session into the world and returns its handle. If
/// a ship is alive already, nothing is added and its handle is returned: there
/// is never more than one ship.
pub fn spawn_ship(world: &mut World) -> (ship: Entity)
    requires
        old(world).entities.slots() < u32::MAX,
    ensures
        ship_spawned(*old(world), *final(world), ship),
        old(world).entities.at_most_one_ship() ==> final(world).entities.at_most_one_ship(),
{
    match world.entities.find_ship() {
        Some(ship) => ship,
        None => {
            let record = Record {
                kind: Kind::Ship(Ship::new()),
                body: Some(Body::new(0, 0, 0, 0, 0)),
                collider: Some(
                    Collider {
                        shape: Shape::Circle { radius: SHIP_RADIUS },
                        layer: GameLayer::Player,
                        sensor: false,
                    },
                ),
                scope: ForState::app(AppState::Game),
                visible: true,
            };
            let ship = world.entities.spawn(record);
            proof {
                assert forall|a: Entity, b: Entity|
                    #![trigger world.entities.live(a), world.entities.live(b)]
                    world.entities.live(a) && world.entities.live(b) && world.entities.record(
                        a,
                    ).kind is Ship && world.entities.record(b).kind is Ship implies a == b by {
                    if a != ship {
                        assert(old(world).entities.live(a));
                    }
                    if b != ship {
                        assert(old(world).entities.live(b));
                    }
                }
            }
            ship
        },
    }
}

/// The record of an entity after a step of `delta` nanoseconds of the timers
/// of the ship, if it is one.
pub open spec fn ship_aged(record: Record, delta: u64) -> Record {
    match record.kind {
        Kind::Ship(ship) => Record { kind: Kind::Ship(ship.aged(delta)), ..record },
        _ => record,
    }
}

/// The stepping of ship timers as a rule on records: it removes nothing.
pub open spec fn ship_timers_rule(delta: u64) -> spec_fn(Record) -> Option<Record> {
    |r: Record| Some(ship_aged(r, delta))
}

/// Steps the cannon timer and the invincibility timer of every ship by
/// `delta` nanoseconds.
pub fn ship_timers_system(world: &mut World, delta: u64)
    ensures
        old(world).entities.stepped(final(world).entities, ship_timers_rule(delta)),
        final(world).same_state(*old(world)),
        final(world).entities.slots() == old(world).entities.slots(),
        old(world).entities.at_most_one_ship() ==> final(world).entities.at_most_one_ship(),
{
    let n = world.entities.slot_count();
    let mut i: usize = 0;
    while i < n
        invariant
            i <= n,
            n == old(world).entities.slots(),
            old(world).entities.stepped_below(world.entities, ship_timers_rule(delta), i as int),
            world.same_state(*old(world)),
        decreases n - i,
    {
        let ghost before = world.entities;
        match world.entities.entity_at(i) {
            Some(e) => {
                if let Some(record) = world.entities.record_mut(e) {
                    match &mut record.kind {
                        Kind::Ship(ship) => {
                            ship.age(delta);
                        },
                        _ => {},
                    }
                }
                proof {
                    old(world).entities.lemma_step_slot(
                        before,
                        world.entities,
                        ship_timers_rule(delta),
                        e,
                    );
                }
            },
            None => {
                proof {
                    old(world).entities.lemma_skip_slot(before, ship_timers_rule(delta), i as int);
                }
            },
        }
        i += 1;
    }
    proof {
        old(world).entities.lemma_stepped_all(world.entities, ship_timers_rule(delta), n as int);
    }
}

/// Whether `e` is a ship that can be steered and hit: it is alive, is a ship
/// and has a body.
pub open spec fn is_ship_with_body(world: World, e: Entity) -> bool {
    &&& world.entities.live(e)
    &&& world.entities.record(e).kind is Ship
    &&& world.entities.record(e).body is Some
}

/// The body of a ship after the command `command`: turning as asked, if
/// asked, and pushed by the engine.
pub open spec fn commanded(body: Body, command: ShipCommand) -> Body {
    Body {
        angvel: match command.angvel {
            Some(angvel) => angvel,
            None => body.angvel,
        },
        force_x: command.force_x,
        force_y: command.force_y,
        ..body
    }
}

/// Whether `after` is `before` with the ship `ship` steered by `input`, and
/// `laser` is the request for the laser it fired. A ship with a body takes
/// the command that the input gives; a handle that names none changes
/// nothing. No other entity is touched either way.
pub open spec fn ship_steered(
    before: World,
    after: World,
    ship: Entity,
    input: PlayerInput,
    laser: Option<LaserSpawnMessage>,
) -> bool {
    &&& after.same_state(before)
    &&& after.entities.slots() == before.entities.slots()
    &&& after.entities.same_but(before.entities, ship)
    &&& after.entities.live(ship) == before.entities.live(ship)
    &&& if is_ship_with_body(before, ship) {
        let record = before.entities.record(ship);
        let tag = record.kind->Ship_0;
        let body = record.body->0;
        &&& laser == tag.command(body, input).laser
        &&& after.entities.record(ship) == (Record {
            kind: Kind::Ship(tag.steered(input)),
            body: Some(commanded(body, tag.command(body, input))),
            ..record
        })
    } else {
        &&& laser is None
        &&& after.entities.live(ship) ==> after.entities.record(ship) == before.entities.record(
            ship,
        )
    }
}

/// Lets the ship `ship` react to the input of one tick: it turns, the engine
/// pushes, and if it fires, the cannon reloads and the request for the laser
/// is returned. A handle that names no ship with a body changes nothing.
pub fn ship_input_system(world: &mut World, ship: Entity, input: PlayerInput) -> (laser: Option<
    LaserSpawnMessage,
>)
    ensures
        ship_steered(*old(world), *final(world), ship, input, laser),
        old(world).entities.at_most_one_ship() ==> final(world).entities.at_most_one_ship(),
{
    match world.entities.record_mut(ship) {
        Some(record) => {
            match (&mut record.kind, record.body) {
                (Kind::Ship(tag), Some(body)) => {
                    let command = tag.steer(&body, input);
                    let angvel = match command.angvel {
                        Some(angvel) => angvel,
                        None => body.angvel,
                    };
                    record.body = Some(
                        Body { angvel, force_x: command.force_x, force_y: command.force_y, ..body },
                    );
                    command.laser
                },
                _ => None,
            }
        },
        None => None,
    }
}

/// Colour in which the ship is drawn: white, or flashing orange while it is
/// invincible.
pub fn ship_invincible_color(ship: &Ship) -> (c: ShipColor)
    ensures
        c == ship.color(),
        c.alpha <= 1000,
{
    ship.invincible_color()
}

/// What a hit that ends as `outcome` shows at `(x, y)`.
pub open spec fn hit_explosion(outcome: ShipHit, x: i64, y: i64) -> Option<SpawnExplosionEvent> {
    match outcome {
        ShipHit::Destroyed => Some(SpawnExplosionEvent { kind: ExplosionKind::ShipDead, x, y }),
        ShipHit::Damaged => Some(SpawnExplosionEvent { kind: ExplosionKind::ShipContact, x, y }),
        _ => None,
    }
}

impl ShipDamageReport {
    /// The report of a signal that named no ship.
    pub open spec fn nothing() -> ShipDamageReport {
        ShipDamageReport { hit: None, explosion: None, next_game: None }
    }
}

/// Whether `after` is `before` with a damage signal for `e` applied as one
/// for a ship, and `report` says what came of it. If `e` is a ship with a
/// body, the hit is applied to it: the report names the outcome and the
/// explosion where the ship is; a destroyed ship is gone and the session is
/// asked to end. Else nothing changed. No other entity is touched either way.
pub open spec fn ship_damaged(before: World, after: World, e: Entity, report: ShipDamageReport)
    -> bool {
    &&& after.same_state(before)
    &&& after.entities.slots() == before.entities.slots()
    &&& after.entities.same_but(before.entities, e)
    &&& if is_ship_with_body(before, e) {
        let record = before.entities.record(e);
        let tag = record.kind->Ship_0;
        let body = record.body->0;
        &&& report.hit == Some(tag.hit_outcome())
        &&& report.explosion == hit_explosion(tag.hit_outcome(), body.x, body.y)
        &&& report.next_game == (if tag.hit_outcome() == ShipHit::Destroyed {
            Some(GameState::Over)
        } else {
            None
        })
        &&& if tag.hit_outcome() == ShipHit::Destroyed {
            !after.entities.live(e)
        } else {
            &&& after.entities.live(e)
            &&& after.entities.record(e) == (Record { kind: Kind::Ship(tag.hit()), ..record })
        }
    } else {
        &&& report == ShipDamageReport::nothing()
        &&& after.entities.live(e) == before.entities.live(e)
        &&& after.entities.live(e) ==> after.entities.record(e) == before.entities.record(e)
    }
}

/// The session ends once: after the signal that destroyed the ship, a further
/// signal for it asks for nothing and changes nothing.
pub proof fn lemma_game_over_once(
    w0: World,
    w1: World,
    w2: World,
    ship: Entity,
    first: ShipDamageReport,
    second: ShipDamageReport,
)
    requires
        ship_damaged(w0, w1, ship, first),
        ship_damaged(w1, w2, ship, second),
        first.next_game is Some,
    ensures
        first.hit == Some(ShipHit::Destroyed),
        first.next_game == Some(GameState::Over),
        second == ShipDamageReport::nothing(),
        forall|e: Entity|
            (#[trigger] w2.entities.live(e)) == w1.entities.live(e) && (w2.entities.live(e)
                ==> w2.entities.record(e) == w1.entities.record(e)),
        w2.same_state(w1),
{
    assert(is_ship_with_body(w0, ship));
    assert(!w1.entities.live(ship));
    assert forall|e: Entity|
        (#[trigger] w2.entities.live(e)) == w1.entities.live(e) && (w2.entities.live(e)
            ==> w2.entities.record(e) == w1.entities.record(e)) by {
        if e != ship {
            assert(w2.entities.live(e) == w1.entities.live(e));
        }
    }
}

/// Applies a damage signal to the ship `ship`. A vulnerable ship loses a life
/// and explodes; with its last life it is removed and the session is over.
/// An invincible ship loses nothing. A signal for anything but a ship with a
/// body changes nothing.
pub fn on_ship_damage(world: &mut World, ship: Entity) -> (report: ShipDamageReport)
    ensures
        ship_damaged(*old(world), *final(world), ship, report),
        old(world).entities.at_most_one_ship() ==> final(world).entities.at_most_one_ship(),
{
    let hit = match world.entities.record_mut(ship) {
        Some(record) => {
            match (&mut record.kind, record.body) {
                (Kind::Ship(tag), Some(body)) => Some((tag.take_hit(), body)),
                _ => None,
            }
        },
        None => None,
    };
    match hit {
        Some((outcome, body)) => {
            let (explosion, next_game) = match outcome {
                ShipHit::Destroyed => {
                    world.entities.despawn(ship);
                    (
                        Some(
                            SpawnExplosionEvent {
                                kind: ExplosionKind::ShipDead,
                                x: body.x,
                                y: body.y,
                            },
                        ),
                        Some(GameState::Over),
                    )
                },
                ShipHit::Damaged => (
                    Some(
                        SpawnExplosionEvent { kind: ExplosionKind::ShipContact, x: body.x, y: body.y },
                    ),
                    None,
                ),
                _ => (None, None),
            };
            ShipDamageReport { hit: Some(outcome), explosion, next_game }
        },
        None => ShipDamageReport { hit: None, explosion: None, next_game: None },
    }
}

/// Number of the entities of `targets` that are asteroids alive.
pub open spec fn asteroids_among(registry: Registry, targets: Seq<Entity>) -> nat
    decreases targets.len(),
{
    if targets.len() == 0 {
        0
    } else {
        asteroids_among(registry, targets.drop_last()) + if registry.live(targets.last())
            && registry.record(targets.last()).kind is Asteroid {
            1nat
        } else {
            0nat
        }
    }
}

/// The damage signals for the ship `ship` that touches `targets`: one for
/// each target that is an asteroid. The asteroids are not harmed. A handle
/// that names no ship gets no signal.
pub fn ship_asteroid_collision(registry: &Registry, ship: Entity, targets: &Vec<Entity>) -> (signals:
    Vec<Damage>)
    ensures
        signals@.len() == (if registry.live(ship) && registry.record(ship).kind is Ship {
            asteroids_among(*registry, targets@)
        } else {
            0
        }),
        forall|i: int| 0 <= i < signals@.len() ==> (#[trigger] signals@[i]).entity == ship,
{
    let mut signals: Vec<Damage> = Vec::new();
    let is_ship = match registry.get(ship) {
        Some(record) => record.kind.tags().ship,
        None => false,
    };
    if !is_ship {
        return signals;
    }
    let n = targets.len();
    let mut i: usize = 0;
    proof {
        assert(targets@.take(0) =~= Seq::empty());
    }
    while i < n
        invariant
            n == targets@.len(),
            i <= n,
            signals@.len() == asteroids_among(*registry, targets@.take(i as int)),
            forall|k: int| 0 <= k < signals@.len() ==> (#[trigger] signals@[k]).entity == ship,
        decreases n - i,
    {
        proof {
            assert(targets@.take(i + 1).drop_last() =~= targets@.take(i as int));
        }
        let is_asteroid = match registry.get(targets[i]) {
            Some(record) => record.kind.tags().asteroid,
            None => false,
        };
        if is_asteroid {
            signals.push(Damage { entity: ship });
        }
        i += 1;
    }
    proof {
        assert(targets@.take(n as int) =~= targets@);
    }
    signals
}

} // verus!
