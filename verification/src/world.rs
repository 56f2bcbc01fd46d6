//! The entity registry: every game object lives in a slot and is named by a
//! handle that goes stale when the object is removed.

use vstd::prelude::*;
use crate::arena::Arena;
use crate::asteroid::Asteroid;
use crate::body::{Body, Collider};
use crate::explosion::Explosion;
use crate::hud::{UiLife, UiScore};
use crate::laser::Laser;
use crate::menu::{ButtonId, DrawBlink, MenuHandler};
use crate::player_ship::Ship;
use crate::state::{AppState, ForState, GameState, MenuOutcome, Phase};

verus! {

/// The handle of an entity: the slot it lives in, and which tenant of that
/// slot it is.
#[derive(Clone, Copy, Debug, PartialEq, Eq, Hash, Structural)]
pub struct Entity {
    pub index: u32,
    pub generation: u32,
}

/// What an entity is.
#[derive(Debug)]
pub enum Kind {
    Ship(Ship),
    Asteroid(Asteroid),
    Laser(Laser),
    Explosion(Explosion),
    Menu(MenuHandler),
    Button(ButtonId),
    Blink(DrawBlink),
    Score(UiScore),
    Life(UiLife),
}

/// All that is known of one entity.
#[derive(Debug)]
pub struct Record {
    pub kind: Kind,
    /// The physics body, for an entity that has one.
    pub body: Option<Body>,
    /// The collider of the body, for an entity that can touch others.
    pub collider: Option<Collider>,
    /// The phases in which the entity may live.
    pub scope: ForState,
    /// Whether the entity is drawn.
    pub visible: bool,
}

#[derive(Debug)]
struct Slot {
    generation: u32,
    /// A slot whose generations are used up is never let again.
    retired: bool,
    occupant: Option<Record>,
}

/// The entities of the game.
#[derive(Debug)]
pub struct Registry {
    slots: Vec<Slot>,
}

/// The entities of the game, with the state that all of them share.
#[derive(Debug)]
pub struct World {
    pub entities: Registry,
    /// The arena of the session, while there is one.
    pub arena: Option<Arena>,
    /// The screen the game is on.
    pub phase: Phase,
    /// Whether the physics clock runs.
    pub physics_running: bool,
}

impl Registry {
    /// Whether `e` names an entity that is alive.
    pub closed spec fn live(&self, e: Entity) -> bool {
        &&& (e.index as int) < self.slots@.len()
        &&& self.slots@[e.index as int].generation == e.generation
        &&& self.slots@[e.index as int].occupant is Some
    }

    /// The record of the entity `e`, if it is alive.
    pub closed spec fn record(&self, e: Entity) -> Record {
        self.slots@[e.index as int].occupant->0
    }

    /// Number of slots. The index of every entity alive is below it.
    pub closed spec fn slots(&self) -> nat {
        self.slots@.len()
    }

    /// The entities alive, each with its record.
    pub open spec fn view(&self) -> Map<Entity, Record> {
        Map::new(|e: Entity| self.live(e), |e: Entity| self.record(e))
    }

    /// Whether both registries hold the same entities with the same records,
    /// but perhaps for `e`.
    pub open spec fn same_but(&self, other: Registry, e: Entity) -> bool {
        forall|x: Entity|
            x != e ==> (#[trigger] self.live(x)) == other.live(x) && (self.live(x)
                ==> self.record(x) == other.record(x))
    }

    /// Whether `next` comes from this registry by applying `rule` to every
    /// record: an entity for which the rule gives a record has that record in
    /// `next`, one for which it gives none is gone, and nothing is new.
    pub open spec fn stepped(&self, next: Registry, rule: spec_fn(Record) -> Option<Record>)
        -> bool {
        &&& forall|e: Entity| #[trigger]
            self.live(e) ==> match rule(self.record(e)) {
                Some(r) => next.live(e) && next.record(e) == r,
                None => !next.live(e),
            }
        &&& forall|e: Entity| #[trigger] next.live(e) ==> self.live(e)
    }

    /// Whether `next` comes from this registry by applying `rule` to the
    /// records in the slots below `i` and leaving the others as they are.
    pub open spec fn stepped_below(
        &self,
        next: Registry,
        rule: spec_fn(Record) -> Option<Record>,
        i: int,
    ) -> bool {
        &&& next.slots() == self.slots()
        &&& forall|e: Entity| #[trigger]
            self.live(e) ==> if e.index < i {
                match rule(self.record(e)) {
                    Some(r) => next.live(e) && next.record(e) == r,
                    None => !next.live(e),
                }
            } else {
                next.live(e) && next.record(e) == self.record(e)
            }
        &&& forall|e: Entity| #[trigger] next.live(e) ==> self.live(e)
    }

    /// A step below slot `i` becomes a step below the next slot when the
    /// entity `e` in slot `i` is treated as `rule` says.
    pub proof fn lemma_step_slot(
        &self,
        before: Registry,
        after: Registry,
        rule: spec_fn(Record) -> Option<Record>,
        e: Entity,
    )
        requires
            self.stepped_below(before, rule, e.index as int),
            before.live(e),
            after.same_but(before, e),
            after.slots() == before.slots(),
            match rule(before.record(e)) {
                Some(r) => after.live(e) && after.record(e) == r,
                None => !after.live(e),
            },
        ensures
            self.stepped_below(after, rule, e.index + 1),
    {
        assert forall|x: Entity| #[trigger] self.live(x) implies if x.index < e.index + 1 {
            match rule(self.record(x)) {
                Some(r) => after.live(x) && after.record(x) == r,
                None => !after.live(x),
            }
        } else {
            after.live(x) && after.record(x) == self.record(x)
        } by {
            if x.index == e.index {
                before.lemma_one_per_slot(e, x);
            } else {
                assert(after.live(x) == before.live(x));
            }
        }
        assert forall|x: Entity| #[trigger] after.live(x) implies self.live(x) by {
            if x != e {
                assert(after.live(x) == before.live(x));
            }
        }
    }

    /// A step below slot `i` is a step below the next slot when nothing is
    /// alive in slot `i`.
    pub proof fn lemma_skip_slot(
        &self,
        next: Registry,
        rule: spec_fn(Record) -> Option<Record>,
        i: int,
    )
        requires
            self.stepped_below(next, rule, i),
            forall|x: Entity| x.index == i ==> !next.live(x),
        ensures
            self.stepped_below(next, rule, i + 1),
    {
    }

    /// A step over all slots is a step over the registry.
    pub proof fn lemma_stepped_all(
        &self,
        next: Registry,
        rule: spec_fn(Record) -> Option<Record>,
        i: int,
    )
        requires
            self.stepped_below(next, rule, i),
            i >= self.slots(),
        ensures
            self.stepped(next, rule),
    {
        assert forall|e: Entity| #[trigger] self.live(e) implies e.index < i by {
            self.lemma_one_per_slot(e, e);
        }
    }

    /// Whether `next` is this registry with new entities added: `handles`
    /// are their handles, one for each of `records` and all different, and
    /// everything that was alive is alive as it was.
    pub open spec fn grown(&self, next: Registry, handles: Seq<Entity>, records: Seq<Record>)
        -> bool {
        &&& handles.len() == records.len()
        &&& forall|i: int|
            0 <= i < handles.len() ==> {
                &&& !self.live(#[trigger] handles[i])
                &&& next.live(handles[i])
                &&& next.record(handles[i]) == records[i]
            }
        &&& forall|i: int, j: int|
            0 <= i < j < handles.len() ==> (#[trigger] handles[i]) != (#[trigger] handles[j])
        &&& forall|e: Entity| #[trigger]
            self.live(e) ==> next.live(e) && next.record(e) == self.record(e)
        &&& forall|e: Entity| #[trigger] next.live(e) ==> self.live(e) || handles.contains(e)
        &&& self.slots() <= next.slots() <= self.slots() + handles.len()
    }

    /// A registry has grown by nothing.
    pub proof fn lemma_grown_none(&self)
        ensures
            self.grown(*self, Seq::empty(), Seq::empty()),
    {
    }

    /// A registry that has grown, and then by one entity more, has grown by
    /// all of them.
    pub proof fn lemma_grown_push(
        &self,
        before: Registry,
        after: Registry,
        handles: Seq<Entity>,
        records: Seq<Record>,
        e: Entity,
        record: Record,
    )
        requires
            self.grown(before, handles, records),
            !before.live(e),
            after.live(e),
            after.record(e) == record,
            after.same_but(before, e),
            before.slots() <= after.slots() <= before.slots() + 1,
        ensures
            self.grown(after, handles.push(e), records.push(record)),
    {
        let hs = handles.push(e);
        let rs = records.push(record);
        assert forall|i: int| 0 <= i < hs.len() implies {
            &&& !self.live(#[trigger] hs[i])
            &&& after.live(hs[i])
            &&& after.record(hs[i]) == rs[i]
        } by {
            if i < handles.len() {
                assert(hs[i] == handles[i]);
                assert(before.live(handles[i]));
                assert(after.live(hs[i]) == before.live(hs[i]));
            } else {
                if self.live(e) {
                    assert(before.live(e));
                }
            }
        }
        assert forall|i: int, j: int| 0 <= i < j < hs.len() implies (#[trigger] hs[i]) != (
        #[trigger] hs[j]) by {
            if j == handles.len() {
                assert(before.live(handles[i]));
            } else {
                assert(hs[i] == handles[i] && hs[j] == handles[j]);
            }
        }
        assert forall|x: Entity| #[trigger] self.live(x) implies after.live(x) && after.record(x)
            == self.record(x) by {
            assert(before.live(x));
            assert(after.live(x) == before.live(x));
        }
        assert forall|x: Entity| #[trigger] after.live(x) implies self.live(x) || hs.contains(
            x,
        ) by {
            if x == e {
                assert(hs[handles.len() as int] == e);
            } else {
                assert(after.live(x) == before.live(x));
                if !self.live(x) {
                    assert(handles.contains(x));
                    let k = choose|k: int| 0 <= k < handles.len() && handles[k] == x;
                    assert(hs[k] == x);
                }
            }
        }
    }

    /// Whether the ship, if there is one, is the only one.
    pub open spec fn at_most_one_ship(&self) -> bool {
        forall|a: Entity, b: Entity|
            #![trigger self.live(a), self.live(b)]
            self.live(a) && self.live(b) && self.record(a).kind is Ship && self.record(b).kind
                is Ship ==> a == b
    }

    /// Whether `e` is a menu on screen and the only one.
    pub open spec fn only_menu(&self, e: Entity) -> bool {
        &&& self.live(e)
        &&& self.record(e).kind is Menu
        &&& forall|x: Entity| #[trigger] self.live(x) && self.record(x).kind is Menu ==> x == e
    }

    /// The menu on screen, if there is exactly one.
    pub open spec fn the_menu(&self) -> Option<Entity> {
        if exists|e: Entity| self.only_menu(e) {
            Some(choose|e: Entity| self.only_menu(e))
        } else {
            None
        }
    }

    /// The asteroids alive.
    pub open spec fn asteroids(&self) -> Set<Entity> {
        Set::new(|e: Entity| self.live(e) && self.record(e).kind is Asteroid)
    }

    /// An entity alive has its index below the number of slots, and no two
    /// entities alive share an index.
    pub proof fn lemma_one_per_slot(&self, a: Entity, b: Entity)
        requires
            self.live(a),
        ensures
            a.index < self.slots(),
            self.live(b) && a.index == b.index ==> a == b,
    {
    }

    /// A registry without entities.
    pub fn new() -> (registry: Registry)
        ensures
            forall|e: Entity| !registry.live(e),
            registry.slots() == 0,
            registry.at_most_one_ship(),
    {
        Registry { slots: Vec::new() }
    }

    /// Number of slots.
    pub fn slot_count(&self) -> (n: usize)
        ensures
            n == self.slots(),
    {
        self.slots.len()
    }

    /// Whether `e` names an entity that is alive.
    pub fn contains(&self, e: Entity) -> (b: bool)
        ensures
            b == self.live(e),
    {
        let i = e.index as usize;
        i < self.slots.len() && self.slots[i].generation == e.generation
            && self.slots[i].occupant.is_some()
    }

    /// The record of `e`, or `None` for a stale handle.
    pub fn get(&self, e: Entity) -> (r: Option<&Record>)
        ensures
            r is Some == self.live(e),
            r matches Some(record) ==> *record == self.record(e),
    {
        if self.contains(e) {
            self.slots[e.index as usize].occupant.as_ref()
        } else {
            None
        }
    }

    /// The entity alive in slot `i`, if there is one.
    pub fn entity_at(&self, i: usize) -> (r: Option<Entity>)
        ensures
            match r {
                Some(e) => e.index == i && self.live(e),
                None => forall|x: Entity| x.index == i ==> !self.live(x),
            },
    {
        if i < self.slots.len() && i <= u32::MAX as usize && self.slots[i].occupant.is_some() {
            Some(Entity { index: i as u32, generation: self.slots[i].generation })
        } else {
            None
        }
    }

    /// The record of `e` to change in place, or `None` for a stale handle.
    pub fn record_mut(&mut self, e: Entity) -> (r: Option<&mut Record>)
        ensures
            r is Some == old(self).live(e),
            r is None ==> *final(self) == *old(self),
            r matches Some(record) ==> {
                &&& *record == old(self).record(e)
                &&& final(self).live(e)
                &&& final(self).record(e) == *final(record)
                &&& final(self).same_but(*old(self), e)
                &&& final(self).slots() == old(self).slots()
            },
    {
        if !self.contains(e) {
            return None;
        }
        let slot = &mut self.slots[e.index as usize];
        slot.occupant.as_mut()
    }

    /// Number of asteroids alive.
    pub fn count_asteroids(&self) -> (n: usize)
        ensures
            self.asteroids().finite(),
            n == self.asteroids().len(),
    {
        let total = self.slots.len();
        let mut n: usize = 0;
        let mut i: usize = 0;
        let ghost mut seen: Set<Entity> = Set::empty();
        while i < total
            invariant
                total == self.slots@.len(),
                i <= total,
                n <= i,
                seen.finite(),
                seen.len() == n,
                seen =~= Set::new(
                    |e: Entity| self.live(e) && self.record(e).kind is Asteroid && e.index < i,
                ),
            decreases total - i,
        {
            let is_asteroid = match &self.slots[i].occupant {
                Some(record) => match record.kind {
                    Kind::Asteroid(_) => true,
                    _ => false,
                },
                None => false,
            };
            if is_asteroid && i <= u32::MAX as usize {
                proof {
                    let e = Entity { index: i as u32, generation: self.slots@[i as int].generation };
                    assert(!seen.contains(e));
                    seen = seen.insert(e);
                }
                n += 1;
            }
            i += 1;
        }
        assert(seen =~= self.asteroids());
        n
    }

    /// A ship that is alive, if there is one.
    pub fn find_ship(&self) -> (r: Option<Entity>)
        ensures
            match r {
                Some(e) => self.live(e) && self.record(e).kind is Ship,
                None => forall|x: Entity| #[trigger] self.live(x) ==> !(self.record(x).kind is Ship),
            },
    {
        let total = self.slots.len();
        let mut i: usize = 0;
        while i < total
            invariant
                total == self.slots@.len(),
                i <= total,
                forall|x: Entity|
                    #[trigger] self.live(x) && x.index < i ==> !(self.record(x).kind is Ship),
            decreases total - i,
        {
            let is_ship = match &self.slots[i].occupant {
                Some(record) => match record.kind {
                    Kind::Ship(_) => true,
                    _ => false,
                },
                None => false,
            };
            if is_ship && i <= u32::MAX as usize {
                return Some(Entity { index: i as u32, generation: self.slots[i].generation });
            }
            i += 1;
        }
        None
    }

    /// The menu on screen, if there is exactly one.
    pub fn single_menu(&self) -> (r: Option<Entity>)
        ensures
            r == self.the_menu(),
            r matches Some(e) ==> self.only_menu(e),
    {
        let total = self.slots.len();
        let mut found: Option<Entity> = None;
        let mut i: usize = 0;
        while i < total
            invariant
                total == self.slots@.len(),
                i <= total,
                match found {
                    Some(e) => self.live(e) && self.record(e).kind is Menu && e.index < i
                        && forall|x: Entity|
                        #[trigger] self.live(x) && self.record(x).kind is Menu && x.index < i ==> x
                            == e,
                    None => forall|x: Entity|
                        #[trigger] self.live(x) && x.index < i ==> !(self.record(x).kind is Menu),
                },
            decreases total - i,
        {
            let is_menu = match &self.slots[i].occupant {
                Some(record) => match record.kind {
                    Kind::Menu(_) => true,
                    _ => false,
                },
                None => false,
            };
            if is_menu && i <= u32::MAX as usize {
                let e = Entity { index: i as u32, generation: self.slots[i].generation };
                match found {
                    Some(first) => {
                        proof {
                            assert(self.live(first) && self.live(e) && first != e);
                            assert forall|x: Entity| !self.only_menu(x) by {
                                if self.only_menu(x) {
                                    assert(first == x && e == x);
                                }
                            }
                        }
                        return None;
                    },
                    None => {
                        found = Some(e);
                    },
                }
            }
            i += 1;
        }
        proof {
            match found {
                Some(e) => {
                    assert forall|x: Entity|
                        #[trigger] self.live(x) && self.record(x).kind is Menu implies x == e by {
                        self.lemma_one_per_slot(x, x);
                    }
                    assert(self.only_menu(e));
                },
                None => {
                    assert forall|e: Entity| !self.only_menu(e) by {
                        if self.live(e) {
                            self.lemma_one_per_slot(e, e);
                        }
                    }
                },
            }
        }
        found
    }

    /// Adds an entity and returns its handle, which named nothing alive
    /// before. A free slot is let again; without one the registry gets a new
    /// slot.
    pub fn spawn(&mut self, record: Record) -> (e: Entity)
        requires
            old(self).slots() < u32::MAX,
        ensures
            !old(self).live(e),
            final(self).live(e),
            final(self).record(e) == record,
            final(self).same_but(*old(self), e),
            old(self).slots() <= final(self).slots() <= old(self).slots() + 1,
    {
        let n = self.slots.len();
        let mut i: usize = 0;
        while i < n
            invariant
                n == self.slots@.len(),
                n < u32::MAX,
                i <= n,
                *self == *old(self),
            decreases n - i,
        {
            if self.slots[i].occupant.is_none() && !self.slots[i].retired {
                let e = Entity { index: i as u32, generation: self.slots[i].generation };
                let slot = &mut self.slots[i];
                slot.occupant = Some(record);
                return e;
            }
            i += 1;
        }
        self.slots.push(Slot { generation: 0, retired: false, occupant: Some(record) });
        Entity { index: n as u32, generation: 0 }
    }

    /// Removes the entity `e` and says whether it was alive. Its handle is
    /// stale from now on.
    pub fn despawn(&mut self, e: Entity) -> (was_alive: bool)
        ensures
            was_alive == old(self).live(e),
            !final(self).live(e),
            final(self).same_but(*old(self), e),
            final(self).slots() == old(self).slots(),
    {
        if !self.contains(e) {
            return false;
        }
        let slot = &mut self.slots[e.index as usize];
        slot.occupant = None;
        if slot.generation < u32::MAX {
            slot.generation = slot.generation + 1;
        } else {
            slot.retired = true;
        }
        true
    }
}

impl World {
    /// Whether both worlds share arena, phase and physics clock.
    pub open spec fn same_state(&self, other: World) -> bool {
        &&& self.arena == other.arena
        &&& self.phase == other.phase
        &&& self.physics_running == other.physics_running
    }

    /// The sweep on entering `phase` as a rule on records: an entity stays
    /// if its scope holds the phase, and is removed if not.
    pub open spec fn scope_rule(phase: Phase) -> spec_fn(Record) -> Option<Record> {
        |r: Record|
            if r.scope.allows(phase) {
                Some(r)
            } else {
                None
            }
    }

    /// Whether the physics clock runs after `phase` is entered: it halts for
    /// the pause, starts for the running game, and is left alone otherwise.
    pub open spec fn clock_on_entering(phase: Phase, running: bool) -> bool {
        match phase {
            Phase::Paused => false,
            Phase::Running => true,
            _ => running,
        }
    }

    /// Whether `after` is `before` after applying `outcome`. The phase is the
    /// one that the outcome leads to. If that is a new phase, the entities
    /// that may not live in it are removed and the physics clock is set for
    /// it; if not, no entity is touched. A word of the outcome on the physics
    /// clock comes last and wins.
    pub open spec fn applied(before: World, after: World, outcome: MenuOutcome) -> bool {
        let next = before.phase.after(outcome);
        let clock = if next != before.phase {
            World::clock_on_entering(next, before.physics_running)
        } else {
            before.physics_running
        };
        &&& after.phase == next
        &&& after.arena == before.arena
        &&& after.entities.slots() == before.entities.slots()
        &&& after.physics_running == match outcome.physics {
            Some(running) => running,
            None => clock,
        }
        &&& if next != before.phase {
            before.entities.stepped(after.entities, World::scope_rule(next))
        } else {
            after.entities == before.entities
        }
    }

    /// After a sweep for `phase` the entities alive are those that were alive
    /// and may live in the phase, each with the record it had.
    pub proof fn lemma_sweep_keeps_what_belongs(before: Registry, after: Registry, phase: Phase)
        requires
            before.stepped(after, World::scope_rule(phase)),
        ensures
            forall|e: Entity| #[trigger]
                after.live(e) ==> before.live(e) && after.record(e) == before.record(e)
                    && after.record(e).scope.allows(phase),
            forall|e: Entity| #[trigger]
                before.live(e) ==> (after.live(e) <==> before.record(e).scope.allows(phase)),
    {
        assert forall|e: Entity| #[trigger] after.live(e) implies before.live(e) && after.record(e)
            == before.record(e) && after.record(e).scope.allows(phase) by {
            assert(before.live(e));
        }
    }

    /// An entity that lives for the session outlives the pause and the end
    /// of the game and is removed in the menus. One that lives only while the
    /// game runs is removed with the pause already.
    pub proof fn lemma_scope_of_a_session()
        ensures
            forall|p: Phase| ForState::of_app(AppState::Game).allows(p) <==> p.game() is Some,
            ForState::of_app(AppState::Game).allows(Phase::Paused),
            !ForState::of_app(AppState::Game).allows(Phase::Menu),
            ForState::of_game(GameState::Running).allows(Phase::Running),
            !ForState::of_game(GameState::Running).allows(Phase::Paused),
            !ForState::of_game(GameState::Running).allows(Phase::Menu),
    {
    }

    /// An empty world in the boot phase.
    pub fn new() -> (world: World)
        ensures
            forall|e: Entity| !world.entities.live(e),
            world.entities.slots() == 0,
            world.entities.at_most_one_ship(),
            world.arena is None,
            world.phase == Phase::Setup,
            world.physics_running,
    {
        World { entities: Registry::new(), arena: None, phase: Phase::Setup, physics_running: true }
    }

    /// Removes every entity that may not live in `phase`. This is all the
    /// cleaning up there is between the screens of the game.
    pub fn sweep(&mut self, phase: Phase)
        ensures
            old(self).entities.stepped(final(self).entities, World::scope_rule(phase)),
            final(self).same_state(*old(self)),
            final(self).entities.slots() == old(self).entities.slots(),
            old(self).entities.at_most_one_ship() ==> final(self).entities.at_most_one_ship(),
    {
        let n = self.entities.slot_count();
        let mut i: usize = 0;
        while i < n
            invariant
                i <= n,
                n == old(self).entities.slots(),
                old(self).entities.stepped_below(self.entities, World::scope_rule(phase), i as int),
                self.same_state(*old(self)),
            decreases n - i,
        {
            let ghost before = self.entities;
            match self.entities.entity_at(i) {
                Some(e) => {
                    let stays = match self.entities.get(e) {
                        Some(record) => record.scope.contains(phase),
                        None => true,
                    };
                    if !stays {
                        self.entities.despawn(e);
                    }
                    proof {
                        old(self).entities.lemma_step_slot(
                            before,
                            self.entities,
                            World::scope_rule(phase),
                            e,
                        );
                    }
                },
                None => {
                    proof {
                        old(self).entities.lemma_skip_slot(
                            before,
                            World::scope_rule(phase),
                            i as int,
                        );
                    }
                },
            }
            i += 1;
        }
        proof {
            old(self).entities.lemma_stepped_all(self.entities, World::scope_rule(phase), n as int);
        }
    }

    /// Enters `phase`: the entities that may not live in it are removed, and
    /// the physics clock halts for the pause and runs for the running game.
    pub fn enter(&mut self, phase: Phase)
        ensures
            final(self).phase == phase,
            final(self).arena == old(self).arena,
            final(self).physics_running == World::clock_on_entering(
                phase,
                old(self).physics_running,
            ),
            old(self).entities.stepped(final(self).entities, World::scope_rule(phase)),
            final(self).entities.slots() == old(self).entities.slots(),
            old(self).entities.at_most_one_ship() ==> final(self).entities.at_most_one_ship(),
    {
        self.sweep(phase);
        self.phase = phase;
        match phase {
            Phase::Paused => {
                self.physics_running = false;
            },
            Phase::Running => {
                self.physics_running = true;
            },
            _ => {},
        }
    }

    /// Applies what a menu system or a hit asked for, and says whether the
    /// phase changed.
    pub fn apply(&mut self, outcome: MenuOutcome) -> (changed: bool)
        ensures
            World::applied(*old(self), *final(self), outcome),
            changed == (final(self).phase != old(self).phase),
            old(self).entities.at_most_one_ship() ==> final(self).entities.at_most_one_ship(),
    {
        let next = self.phase.apply(outcome);
        let changed = next != self.phase;
        if changed {
            self.enter(next);
        }
        if let Some(running) = outcome.physics {
            self.physics_running = running;
        }
        changed
    }
}

} // verus!
