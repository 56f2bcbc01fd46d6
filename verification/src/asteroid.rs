//! Asteroids: what they are worth, how they split, and when new ones arrive.

use vstd::prelude::*;
use crate::arena::{Arena, ARENA_HEIGHT, ARENA_WIDTH};
use crate::body::{clamped, clamped_add, Body, Collider, GameLayer, Shape};
use crate::random::roll;
use crate::state::{AppState, ForState};
use crate::timer::Timer;
use crate::world::{Entity, Kind, Record, World};

verus! {

/// No asteroid arrives while this many are alive.
pub const MAX_ASTEROIDS: usize = 20;

/// The time between two arrivals never drops below this, in nanoseconds.
pub const MIN_SPAWN_NANOS: u64 = 100_000_000;

/// Bound of the turn rate of an arriving asteroid, in milliradians per second.
pub const MAX_SPAWN_ANGVEL: i64 = 10_000;

/// Pieces that a splitting asteroid breaks into.
pub const SPLIT_COUNT: usize = 4;

/// How large an asteroid is.
#[derive(Clone, Copy, Debug, PartialEq, Eq, Structural)]
pub enum AsteroidSize {
    Big,
    Medium,
    Small,
}

/// The tag of an asteroid entity.
#[derive(Clone, Copy, Debug, PartialEq, Eq, Structural)]
pub struct Asteroid {
    pub size: AsteroidSize,
}

/// A request to create an asteroid.
#[derive(Clone, Copy, Debug, PartialEq, Eq, Structural)]
pub struct AsteroidSpawnEvent {
    pub size: AsteroidSize,
    pub x: i64,
    pub y: i64,
    pub vx: i64,
    pub vy: i64,
    pub angvel: i64,
}

impl AsteroidSize {
    /// Points gained by destroying an asteroid of this size.
    pub open spec fn points(self) -> u32 {
        match self {
            AsteroidSize::Big => 40,
            AsteroidSize::Medium => 20,
            AsteroidSize::Small => 10,
        }
    }

    /// The size of the pieces and the radius at which they appear, in
    /// thousandths of a map unit; `None` for an asteroid that does not split.
    pub open spec fn pieces(self) -> Option<(AsteroidSize, i64)> {
        match self {
            AsteroidSize::Big => Some((AsteroidSize::Medium, 20_000i64)),
            AsteroidSize::Medium => Some((AsteroidSize::Small, 10_000i64)),
            AsteroidSize::Small => None,
        }
    }

    /// Sizes in order: 0 for the smallest.
    pub open spec fn rank(self) -> nat {
        match self {
            AsteroidSize::Big => 2,
            AsteroidSize::Medium => 1,
            AsteroidSize::Small => 0,
        }
    }

    /// Radius of the collider, in thousandths of a map unit.
    pub open spec fn radius(self) -> i64 {
        match self {
            AsteroidSize::Big => 50_500,
            AsteroidSize::Medium => 21_500,
            AsteroidSize::Small => 14_000,
        }
    }

    /// Points gained by destroying an asteroid of this size.
    pub fn score(&self) -> (points: u32)
        ensures
            points == self.points(),
    {
        match self {
            AsteroidSize::Big => 40,
            AsteroidSize::Medium => 20,
            AsteroidSize::Small => 10,
        }
    }

    /// Whether an asteroid of this size splits when it is destroyed, and if
    /// so, the size of the pieces and the radius at which they appear.
    pub fn split(&self) -> (pieces: Option<(AsteroidSize, i64)>)
        ensures
            pieces == self.pieces(),
    {
        match self {
            AsteroidSize::Big => Some((AsteroidSize::Medium, 20_000)),
            AsteroidSize::Medium => Some((AsteroidSize::Small, 10_000)),
            AsteroidSize::Small => None,
        }
    }

    /// The name of the size, as it is written.
    pub fn name(&self) -> (s: &'static str)
        ensures
            s@ == (match self {
                AsteroidSize::Big => "Big"@,
                AsteroidSize::Medium => "Medium"@,
                AsteroidSize::Small => "Small"@,
            }),
    {
        match self {
            AsteroidSize::Big => "Big",
            AsteroidSize::Medium => "Medium",
            AsteroidSize::Small => "Small",
        }
    }

    /// Radius of the collider, in thousandths of a map unit.
    pub fn collider_radius(&self) -> (r: i64)
        ensures
            r == self.radius(),
    {
        match self {
            AsteroidSize::Big => 50_500,
            AsteroidSize::Medium => 21_500,
            AsteroidSize::Small => 14_000,
        }
    }
}

/// The pieces of an asteroid are strictly smaller than it, the smallest
/// asteroid has none, and a larger asteroid is worth more.
pub proof fn lemma_split_shrinks(size: AsteroidSize)
    ensures
        size.pieces() matches Some((piece, radius)) ==> piece.rank() < size.rank() && radius > 0
            && piece.points() < size.points(),
        size == AsteroidSize::Small <==> size.pieces() is None,
{
}

/// The time to the next arrival after one of `duration`: four fifths of it,
/// rounded down, but at least a tenth of a second.
pub open spec fn next_spawn_duration(duration: u64) -> u64 {
    let shorter = duration * 4 / 5;
    if shorter < MIN_SPAWN_NANOS {
        MIN_SPAWN_NANOS
    } else {
        shorter as u64
    }
}

/// Computes `next_spawn_duration`.
pub fn shorten_spawn_duration(duration: u64) -> (next: u64)
    ensures
        next == next_spawn_duration(duration),
{
    let shorter: u128 = duration as u128 * 4 / 5;
    if shorter < MIN_SPAWN_NANOS as u128 {
        MIN_SPAWN_NANOS
    } else {
        shorter as u64
    }
}

/// The duration after `n` arrivals, starting from `duration`.
pub open spec fn spawn_duration_after(duration: u64, n: nat) -> u64
    decreases n,
{
    if n == 0 {
        duration
    } else {
        next_spawn_duration(spawn_duration_after(duration, (n - 1) as nat))
    }
}

impl Arena {
    /// Whether the spawn timer fires in a step of `delta` nanoseconds.
    pub open spec fn spawn_fires(self, delta: u64) -> bool {
        self.asteroid_spawn_timer.ticked(delta).finished
    }

    /// The arena after a step of `delta` nanoseconds of the spawn timer. When
    /// the timer fires it is set back with a shorter duration, whether or not
    /// an asteroid can arrive.
    pub open spec fn after_cadence(self, delta: u64) -> Arena {
        let timer = self.asteroid_spawn_timer.ticked(delta);
        if timer.finished {
            Arena {
                asteroid_spawn_timer: Timer {
                    duration: next_spawn_duration(timer.duration),
                    ..timer.rewound()
                },
                ..self
            }
        } else {
            Arena { asteroid_spawn_timer: timer, ..self }
        }
    }

    /// The arena after an asteroid of `size` was destroyed. The score stops at
    /// the largest number it can hold.
    pub open spec fn after_kill(self, size: AsteroidSize) -> Arena {
        Arena {
            score: if self.score + size.points() > u32::MAX {
                u32::MAX
            } else {
                (self.score + size.points()) as u32
            },
            ..self
        }
    }

    /// Steps the spawn timer by `delta` nanoseconds and says whether an
    /// asteroid arrives now: the timer fired and fewer than `MAX_ASTEROIDS` of
    /// the `n_asteroid` alive.
    pub fn cadence(&mut self, delta: u64, n_asteroid: usize) -> (arrives: bool)
        ensures
            *final(self) == old(self).after_cadence(delta),
            arrives == (old(self).spawn_fires(delta) && n_asteroid < MAX_ASTEROIDS),
    {
        self.asteroid_spawn_timer.tick(delta);
        if self.asteroid_spawn_timer.finished() {
            self.asteroid_spawn_timer.reset();
            let duration = shorten_spawn_duration(self.asteroid_spawn_timer.duration());
            self.asteroid_spawn_timer.set_duration(duration);
            n_asteroid < MAX_ASTEROIDS
        } else {
            false
        }
    }

    /// Adds the points for a destroyed asteroid of `size`.
    pub fn award(&mut self, size: AsteroidSize)
        ensures
            *final(self) == old(self).after_kill(size),
            final(self).score >= old(self).score,
    {
        self.score = self.score.saturating_add(size.score());
    }
}

/// The asteroid that arrives for the given draws: a big one, on the top edge
/// at `along` if `side` is 0, else on the left edge at `along`.
pub open spec fn arrival(side: i64, along: i64, vx: i64, vy: i64, angvel: i64)
    -> AsteroidSpawnEvent {
    AsteroidSpawnEvent {
        size: AsteroidSize::Big,
        x: if side == 0 {
            along
        } else {
            (-ARENA_WIDTH / 2) as i64
        },
        y: if side == 0 {
            (ARENA_HEIGHT / 2) as i64
        } else {
            along
        },
        vx,
        vy,
        angvel,
    }
}

/// What holds of every arriving asteroid: it is big, sits on the top or the
/// left edge, and its velocity is bounded by a quarter of the field per
/// second along each axis.
pub open spec fn arrives_from_edge(event: AsteroidSpawnEvent) -> bool {
    &&& event.size == AsteroidSize::Big
    &&& {
        ||| event.y == ARENA_HEIGHT / 2 && -ARENA_WIDTH / 2 <= event.x < ARENA_WIDTH / 2
        ||| event.x == -ARENA_WIDTH / 2 && -ARENA_HEIGHT / 2 <= event.y < ARENA_HEIGHT / 2
    }
    &&& -ARENA_WIDTH / 4 <= event.vx < ARENA_WIDTH / 4
    &&& -ARENA_HEIGHT / 4 <= event.vy < ARENA_HEIGHT / 4
    &&& -MAX_SPAWN_ANGVEL <= event.angvel < MAX_SPAWN_ANGVEL
}

/// Builds the arriving asteroid from the numbers drawn for it.
pub fn arrival_from_rolls(side: i64, along: i64, vx: i64, vy: i64, angvel: i64) -> (event:
    AsteroidSpawnEvent)
    ensures
        event == arrival(side, along, vx, vy, angvel),
{
    if side == 0 {
        AsteroidSpawnEvent { size: AsteroidSize::Big, x: along, y: ARENA_HEIGHT / 2, vx, vy, angvel }
    } else {
        AsteroidSpawnEvent { size: AsteroidSize::Big, x: -ARENA_WIDTH / 2, y: along, vx, vy, angvel }
    }
}

/// Draws the place and the motion of an arriving asteroid.
pub fn roll_arrival() -> (event: AsteroidSpawnEvent)
    ensures
        arrives_from_edge(event),
{
    let side = roll(0, 2);
    let along = if side == 0 {
        roll(-ARENA_WIDTH / 2, ARENA_WIDTH / 2)
    } else {
        roll(-ARENA_HEIGHT / 2, ARENA_HEIGHT / 2)
    };
    let vx = roll(-ARENA_WIDTH / 4, ARENA_WIDTH / 4);
    let vy = roll(-ARENA_HEIGHT / 4, ARENA_HEIGHT / 4);
    let angvel = roll(-MAX_SPAWN_ANGVEL, MAX_SPAWN_ANGVEL);
    arrival_from_rolls(side, along, vx, vy, angvel)
}

/// Bound of the speed of a piece along an axis of extent `extent`, for pieces
/// that appear at `radius`: the smaller the radius, the faster the piece.
pub open spec fn piece_speed_limit(extent: i64, radius: i64) -> int {
    extent * 4000 / (radius as int)
}

/// Sign of the offset of piece `i` along x: pieces 0 and 2 lie to the right.
pub open spec fn piece_sign_x(i: int) -> int {
    if i % 2 == 0 {
        1
    } else {
        -1
    }
}

/// Sign of the offset of piece `i` along y: pieces 0 and 1 lie above.
pub open spec fn piece_sign_y(i: int) -> int {
    if (i / 2) % 2 == 0 {
        1
    } else {
        -1
    }
}

/// Piece `i` of an asteroid at `parent` that breaks into pieces of `size`
/// appearing at `radius`: one and a half radii from the parent along both
/// axes, on the diagonal that `i` selects, turning as the parent did.
pub open spec fn piece(
    i: int,
    size: AsteroidSize,
    radius: i64,
    parent: Body,
    vx: i64,
    vy: i64,
) -> AsteroidSpawnEvent {
    AsteroidSpawnEvent {
        size,
        x: clamped(parent.x + piece_sign_x(i) * (radius * 3 / 2)),
        y: clamped(parent.y + piece_sign_y(i) * (radius * 3 / 2)),
        vx,
        vy,
        angvel: parent.angvel,
    }
}

/// Builds piece `i` from the velocity drawn for it.
pub fn piece_from_rolls(
    i: usize,
    size: AsteroidSize,
    radius: i64,
    parent: Body,
    vx: i64,
    vy: i64,
) -> (event: AsteroidSpawnEvent)
    requires
        0 < radius <= 1_000_000_000,
    ensures
        event == piece(i as int, size, radius, parent, vx, vy),
{
    let reach = radius * 3 / 2;
    let dx = if i % 2 == 0 {
        reach
    } else {
        -reach
    };
    let dy = if (i / 2) % 2 == 0 {
        reach
    } else {
        -reach
    };
    AsteroidSpawnEvent {
        size,
        x: clamped_add(parent.x, dx),
        y: clamped_add(parent.y, dy),
        vx,
        vy,
        angvel: parent.angvel,
    }
}

/// What holds of the pieces of a destroyed asteroid of `size` that was at
/// `parent`: none if it does not split; else `SPLIT_COUNT` of them, each at
/// its place, of the smaller size and with a bounded velocity.
pub open spec fn pieces_of(size: AsteroidSize, parent: Body, pieces: Seq<AsteroidSpawnEvent>)
    -> bool {
    match size.pieces() {
        None => pieces.len() == 0,
        Some((small, radius)) => {
            &&& pieces.len() == SPLIT_COUNT
            &&& forall|i: int|
                0 <= i < pieces.len() ==> {
                    &&& (#[trigger] pieces[i]) == piece(
                        i,
                        small,
                        radius,
                        parent,
                        pieces[i].vx,
                        pieces[i].vy,
                    )
                    &&& -piece_speed_limit(ARENA_WIDTH, radius) <= pieces[i].vx
                        < piece_speed_limit(ARENA_WIDTH, radius)
                    &&& -piece_speed_limit(ARENA_HEIGHT, radius) <= pieces[i].vy
                        < piece_speed_limit(ARENA_HEIGHT, radius)
                }
        },
    }
}

/// A big asteroid breaks into four medium ones and a medium one into four
/// small ones, at one and a half radii along both axes on the four
/// diagonals; a small one leaves nothing.
pub proof fn lemma_split_conserves(size: AsteroidSize, parent: Body, pieces: Seq<AsteroidSpawnEvent>)
    requires
        pieces_of(size, parent, pieces),
    ensures
        size == AsteroidSize::Small ==> pieces.len() == 0,
        size != AsteroidSize::Small ==> pieces.len() == 4,
        forall|i: int|
            0 <= i < pieces.len() ==> (#[trigger] pieces[i]).size.rank() + 1 == size.rank()
                && pieces[i].angvel == parent.angvel,
        size == AsteroidSize::Big && -1_000_000_000 <= parent.x <= 1_000_000_000 && -1_000_000_000
            <= parent.y <= 1_000_000_000 ==> {
            &&& pieces[0].x == parent.x + 30_000 && pieces[0].y == parent.y + 30_000
            &&& pieces[1].x == parent.x - 30_000 && pieces[1].y == parent.y + 30_000
            &&& pieces[2].x == parent.x + 30_000 && pieces[2].y == parent.y - 30_000
            &&& pieces[3].x == parent.x - 30_000 && pieces[3].y == parent.y - 30_000
        },
{
    if size == AsteroidSize::Big {
        assert(pieces[0] == piece(0, AsteroidSize::Medium, 20_000, parent, pieces[0].vx, pieces[0].vy));
        assert(pieces[1] == piece(1, AsteroidSize::Medium, 20_000, parent, pieces[1].vx, pieces[1].vy));
        assert(pieces[2] == piece(2, AsteroidSize::Medium, 20_000, parent, pieces[2].vx, pieces[2].vy));
        assert(pieces[3] == piece(3, AsteroidSize::Medium, 20_000, parent, pieces[3].vx, pieces[3].vy));
    }
}

/// A destroyed asteroid adds its points to the score, 40, 20 or 10 by size,
/// as long as the score can hold them; the score never drops, and the spawn
/// timer is not touched.
pub proof fn lemma_kill_awards(arena: Arena, size: AsteroidSize)
    ensures
        arena.after_kill(size).score >= arena.score,
        arena.score + size.points() <= u32::MAX ==> arena.after_kill(size).score == arena.score
            + size.points(),
        size == AsteroidSize::Big ==> size.points() == 40,
        size == AsteroidSize::Medium ==> size.points() == 20,
        size == AsteroidSize::Small ==> size.points() == 10,
        arena.after_kill(size).asteroid_spawn_timer == arena.asteroid_spawn_timer,
{
}

/// With the field full of asteroids the spawn timer fires in vain: nothing
/// arrives, and yet the timer starts over with its next, shorter duration.
pub proof fn lemma_cap_keeps_the_cadence(arena: Arena, delta: u64)
    requires
        arena.spawn_fires(delta),
        arena.asteroid_spawn_timer.duration >= MIN_SPAWN_NANOS,
    ensures
        arena.after_cadence(delta).asteroid_spawn_timer.elapsed == 0,
        !arena.after_cadence(delta).asteroid_spawn_timer.finished,
        arena.after_cadence(delta).asteroid_spawn_timer.duration == next_spawn_duration(
            arena.asteroid_spawn_timer.duration,
        ),
        arena.after_cadence(delta).asteroid_spawn_timer.duration
            <= arena.asteroid_spawn_timer.duration,
        arena.after_cadence(delta).score == arena.score,
{
}

/// Breaks a destroyed asteroid of `size` at `parent` into its pieces, drawing
/// a velocity for each.
pub fn roll_pieces(size: AsteroidSize, parent: Body) -> (pieces: Vec<AsteroidSpawnEvent>)
    ensures
        pieces_of(size, parent, pieces@),
{
    let mut pieces: Vec<AsteroidSpawnEvent> = Vec::new();
    match size.split() {
        None => {},
        Some((small, radius)) => {
            let limit_x = ARENA_WIDTH * 4000 / radius;
            let limit_y = ARENA_HEIGHT * 4000 / radius;
            let mut i: usize = 0;
            while i < SPLIT_COUNT
                invariant
                    size.pieces() == Some((small, radius)),
                    i <= SPLIT_COUNT,
                    pieces@.len() == i,
                    limit_x == piece_speed_limit(ARENA_WIDTH, radius),
                    limit_y == piece_speed_limit(ARENA_HEIGHT, radius),
                    limit_x > 0,
                    limit_y > 0,
                    forall|j: int|
                        0 <= j < i ==> {
                            &&& (#[trigger] pieces@[j]) == piece(
                                j,
                                small,
                                radius,
                                parent,
                                pieces@[j].vx,
                                pieces@[j].vy,
                            )
                            &&& -limit_x <= pieces@[j].vx < limit_x
                            &&& -limit_y <= pieces@[j].vy < limit_y
                        },
                decreases SPLIT_COUNT - i,
            {
                let vx = roll(-limit_x, limit_x);
                let vy = roll(-limit_y, limit_y);
                pieces.push(piece_from_rolls(i, small, radius, parent, vx, vy));
                i += 1;
            }
        },
    }
    pieces
}

/// From a tenth of a second on, the time between arrivals never grows, and it
/// shrinks as long as it is above the floor. It never drops below the floor,
/// and at the floor it stays.
pub proof fn lemma_cadence_accelerates(duration: u64)
    ensures
        next_spawn_duration(duration) >= MIN_SPAWN_NANOS,
        duration >= MIN_SPAWN_NANOS ==> next_spawn_duration(duration) <= duration,
        duration > MIN_SPAWN_NANOS ==> next_spawn_duration(duration) < duration,
        next_spawn_duration(MIN_SPAWN_NANOS) == MIN_SPAWN_NANOS,
{
}

/// Once at the floor, the time between arrivals stays there for good.
pub proof fn lemma_cadence_floor_is_final(n: nat)
    ensures
        spawn_duration_after(MIN_SPAWN_NANOS, n) == MIN_SPAWN_NANOS,
    decreases n,
{
    if n > 0 {
        lemma_cadence_floor_is_final((n - 1) as nat);
    }
}

/// Arrivals add up: `m` more after `n` is `n + m` in all.
pub proof fn lemma_cadence_adds(duration: u64, n: nat, m: nat)
    ensures
        spawn_duration_after(spawn_duration_after(duration, n), m) == spawn_duration_after(
            duration,
            n + m,
        ),
    decreases m,
{
    if m > 0 {
        lemma_cadence_adds(duration, n, (m - 1) as nat);
    }
}

/// A session starts with five seconds between arrivals. The first arrival
/// leaves four seconds, and from the eighteenth on the time is a tenth of a
/// second.
pub proof fn lemma_cadence_of_a_session(n: nat)
    ensures
        spawn_duration_after(Arena::initial().asteroid_spawn_timer.duration, 1) == 4_000_000_000,
        n >= 18 ==> spawn_duration_after(Arena::initial().asteroid_spawn_timer.duration, n)
            == MIN_SPAWN_NANOS,
{
    let d: u64 = 5_000_000_000;
    reveal_with_fuel(spawn_duration_after, 20);
    assert(spawn_duration_after(d, 1) == 4_000_000_000);
    assert(spawn_duration_after(d, 5) == 1_638_400_000);
    assert(spawn_duration_after(d, 10) == 536_870_912);
    assert(spawn_duration_after(d, 14) == 219_902_324);
    assert(spawn_duration_after(d, 18) == MIN_SPAWN_NANOS);
    if n >= 18 {
        lemma_cadence_floor_is_final((n - 18) as nat);
        lemma_cadence_adds(d, 18, (n - 18) as nat);
    }
}

/// The record of the asteroid that `event` asks for: a body as asked, a round
/// collider of the radius of its size, and a life that ends with the session.
pub open spec fn asteroid_record(event: AsteroidSpawnEvent) -> Record {
    Record {
        kind: Kind::Asteroid(Asteroid { size: event.size }),
        body: Some(Body::placed(event.x, event.y, event.vx, event.vy, event.angvel)),
        collider: Some(
            Collider {
                shape: Shape::Circle { radius: event.size.radius() },
                layer: GameLayer::Asteroid,
                sensor: false,
            },
        ),
        scope: ForState::of_app(AppState::Game),
        visible: true,
    }
}

impl AsteroidSpawnEvent {
    /// The record of the asteroid that this event asks for.
    pub fn record(&self) -> (r: Record)
        ensures
            r == asteroid_record(*self),
    {
        Record {
            kind: Kind::Asteroid(Asteroid { size: self.size }),
            body: Some(Body::new(self.x, self.y, self.vx, self.vy, self.angvel)),
            collider: Some(
                Collider {
                    shape: Shape::Circle { radius: self.size.collider_radius() },
                    layer: GameLayer::Asteroid,
                    sensor: false,
                },
            ),
            scope: ForState::app(AppState::Game),
            visible: true,
        }
    }
}

/// Creates the asteroids that `events` ask for, in order, and returns their
/// handles.
pub fn spawn_asteroid_event(world: &mut World, events: &Vec<AsteroidSpawnEvent>) -> (handles: Vec<
    Entity,
>)
    requires
        old(world).entities.slots() + events@.len() <= u32::MAX,
    ensures
        old(world).entities.grown(
            final(world).entities,
            handles@,
            Seq::new(events@.len(), |i: int| asteroid_record(events@[i])),
        ),
        final(world).same_state(*old(world)),
        old(world).entities.at_most_one_ship() ==> final(world).entities.at_most_one_ship(),
{
    let mut handles: Vec<Entity> = Vec::new();
    let n = events.len();
    let mut i: usize = 0;
    proof {
        old(world).entities.lemma_grown_none();
        assert(Seq::new(0, |k: int| asteroid_record(events@[k])) =~= Seq::<Record>::empty());
    }
    while i < n
        invariant
            n == events@.len(),
            i <= n,
            old(world).entities.slots() + n <= u32::MAX,
            old(world).entities.grown(
                world.entities,
                handles@,
                Seq::new(i as nat, |k: int| asteroid_record(events@[k])),
            ),
            handles@.len() == i,
            world.same_state(*old(world)),
        decreases n - i,
    {
        let ghost before = world.entities;
        let ghost records = Seq::new(i as nat, |k: int| asteroid_record(events@[k]));
        let e = world.entities.spawn(events[i].record());
        proof {
            old(world).entities.lemma_grown_push(
                before,
                world.entities,
                handles@,
                records,
                e,
                asteroid_record(events@[i as int]),
            );
            assert(Seq::new((i + 1) as nat, |k: int| asteroid_record(events@[k])) =~= records.push(
                asteroid_record(events@[i as int]),
            ));
        }
        handles.push(e);
        i += 1;
    }
    handles
}

/// Whether a damage signal for `e` destroys an asteroid: `e` is alive, is an
/// asteroid and has a body.
pub open spec fn destroys_asteroid(world: World, e: Entity) -> bool {
    &&& world.entities.live(e)
    &&& world.entities.record(e).kind is Asteroid
    &&& world.entities.record(e).body is Some
}

/// Whether `after` is `before` with a damage signal for `e` applied as one
/// for an asteroid, and `pieces` are the requests that come of it. If the
/// signal destroys an asteroid, the asteroid is gone, its points are on the
/// score and `pieces` are its pieces. Else nothing changed and there are no
/// pieces. No other entity is touched either way.
pub open spec fn asteroid_damaged(
    before: World,
    after: World,
    e: Entity,
    pieces: Seq<AsteroidSpawnEvent>,
) -> bool {
    &&& after.phase == before.phase
    &&& after.physics_running == before.physics_running
    &&& after.entities.slots() == before.entities.slots()
    &&& after.entities.same_but(before.entities, e)
    &&& if destroys_asteroid(before, e) {
        let record = before.entities.record(e);
        &&& !after.entities.live(e)
        &&& after.arena == match before.arena {
            Some(arena) => Some(arena.after_kill(record.kind->Asteroid_0.size)),
            None => None,
        }
        &&& pieces_of(record.kind->Asteroid_0.size, record.body->0, pieces)
    } else {
        &&& after.entities.live(e) == before.entities.live(e)
        &&& after.entities.live(e) ==> after.entities.record(e) == before.entities.record(e)
        &&& after.arena == before.arena
        &&& pieces.len() == 0
    }
}

/// Destroys the asteroid `asteroid`: its points go to the score of the arena,
/// it is removed, and the requests for its pieces are returned. A signal for
/// anything but an asteroid with a body changes nothing.
pub fn on_asteroid_damage(world: &mut World, asteroid: Entity) -> (pieces: Vec<AsteroidSpawnEvent>)
    ensures
        asteroid_damaged(*old(world), *final(world), asteroid, pieces@),
        old(world).entities.at_most_one_ship() ==> final(world).entities.at_most_one_ship(),
{
    let target = match world.entities.get(asteroid) {
        Some(record) => match (&record.kind, record.body) {
            (Kind::Asteroid(tag), Some(body)) => Some((tag.size, body)),
            _ => None,
        },
        None => None,
    };
    match target {
        Some((size, body)) => {
            match world.arena {
                Some(mut arena) => {
                    arena.award(size);
                    world.arena = Some(arena);
                },
                None => {},
            }
            let pieces = roll_pieces(size, body);
            world.entities.despawn(asteroid);
            pieces
        },
        None => Vec::new(),
    }
}

/// Whether `after` is `before` after a step of `delta` nanoseconds of the
/// spawn timer, and `arrival` is the request that came of it. No entity is
/// touched. With an arena the timer is stepped, and an asteroid arrives
/// exactly if the timer fires and fewer than `MAX_ASTEROIDS` are alive; it
/// arrives from an edge.
pub open spec fn cadence_stepped(
    before: World,
    after: World,
    delta: u64,
    arrival: Option<AsteroidSpawnEvent>,
) -> bool {
    &&& after.entities == before.entities
    &&& after.phase == before.phase
    &&& after.physics_running == before.physics_running
    &&& match before.arena {
        Some(arena) => {
            &&& after.arena == Some(arena.after_cadence(delta))
            &&& arrival is Some <==> arena.spawn_fires(delta) && before.entities.asteroids().len()
                < MAX_ASTEROIDS
        },
        None => after.arena is None && arrival is None,
    }
    &&& arrival matches Some(event) ==> arrives_from_edge(event)
}

/// Steps the spawn timer of the arena by `delta` nanoseconds. When it fires
/// and fewer than `MAX_ASTEROIDS` asteroids are alive, the request for a new
/// asteroid is returned. Without an arena nothing happens.
pub fn arena_asteroids(world: &mut World, delta: u64) -> (arrival: Option<AsteroidSpawnEvent>)
    ensures
        cadence_stepped(*old(world), *final(world), delta, arrival),
{
    match world.arena {
        Some(mut arena) => {
            let n_asteroid = world.entities.count_asteroids();
            let arrives = arena.cadence(delta, n_asteroid);
            world.arena = Some(arena);
            if arrives {
                Some(roll_arrival())
            } else {
                None
            }
        },
        None => None,
    }
}

} // verus!
