//! The head-up display: the score and one marker for each life.

use vstd::prelude::*;
use crate::player_ship::START_LIFE;
use crate::state::{AppState, ForState};
use crate::world::{Entity, Kind, Record, Registry, World};

verus! {

/// The tag of the text that shows the score.
#[derive(Clone, Copy, Debug, PartialEq, Eq, Structural)]
pub struct UiScore {}

/// The tag of a life marker: it is shown while the ship has at least `min`
/// lives.
#[derive(Clone, Copy, Debug, PartialEq, Eq, Structural)]
pub struct UiLife {
    pub min: u32,
}

impl UiLife {
    /// Whether the marker is shown for a ship with `life` lives.
    pub open spec fn shown(self, life: u32) -> bool {
        life >= self.min
    }

    /// Whether the marker is shown for a ship with `life` lives.
    pub fn visible(&self, life: u32) -> (b: bool)
        ensures
            b == self.shown(life),
    {
        life >= self.min
    }
}

/// The score to write on the display: the score of the arena if the arena
/// changed since it was last written, else nothing.
pub fn score_ui_system(changed: bool, score: u32) -> (text: Option<u32>)
    ensures
        text == (if changed {
            Some(score)
        } else {
            None
        }),
{
    if changed {
        Some(score)
    } else {
        None
    }
}

/// The score to write on the display in a world with an arena that changed
/// since it was last written.
pub fn hud_score_system(world: &World, changed: bool) -> (text: Option<u32>)
    ensures
        text == match world.arena {
            Some(arena) if changed => Some(arena.score),
            _ => None,
        },
{
    match world.arena {
        Some(arena) => score_ui_system(changed, arena.score),
        None => None,
    }
}

/// The record of the score text: no body, and a life that ends with the
/// session.
pub open spec fn score_record() -> Record {
    Record {
        kind: Kind::Score(UiScore {  }),
        body: None,
        collider: None,
        scope: ForState::of_app(AppState::Game),
        visible: true,
    }
}

/// The record of the marker of life number `min`.
pub open spec fn life_record(min: u32) -> Record {
    Record {
        kind: Kind::Life(UiLife { min }),
        body: None,
        collider: None,
        scope: ForState::of_app(AppState::Game),
        visible: true,
    }
}

/// The records of the display: the score, then one marker for each life of a
/// new ship, the first life first.
pub open spec fn hud_records() -> Seq<Record> {
    Seq::new((START_LIFE + 1) as nat, |i: int| if i == 0 {
        score_record()
    } else {
        life_record(i as u32)
    })
}

/// Creates the display of a session and returns the handles of its parts:
/// the score text first, then the life markers.
pub fn hud_spawn(world: &mut World) -> (handles: Vec<Entity>)
    requires
        old(world).entities.slots() + START_LIFE + 1 <= u32::MAX,
    ensures
        old(world).entities.grown(final(world).entities, handles@, hud_records()),
        final(world).same_state(*old(world)),
        old(world).entities.at_most_one_ship() ==> final(world).entities.at_most_one_ship(),
{
    let mut handles: Vec<Entity> = Vec::new();
    proof {
        old(world).entities.lemma_grown_none();
    }
    let ghost before = world.entities;
    let score = world.entities.spawn(
        Record {
            kind: Kind::Score(UiScore {  }),
            body: None,
            collider: None,
            scope: ForState::app(AppState::Game),
            visible: true,
        },
    );
    proof {
        old(world).entities.lemma_grown_push(
            before,
            world.entities,
            handles@,
            Seq::empty(),
            score,
            score_record(),
        );
        assert(hud_records().take(1) =~= Seq::<Record>::empty().push(score_record()));
    }
    handles.push(score);
    let mut min: u32 = 1;
    while min <= START_LIFE
        invariant
            1 <= min <= START_LIFE + 1,
            old(world).entities.slots() + START_LIFE + 1 <= u32::MAX,
            old(world).entities.grown(world.entities, handles@, hud_records().take(min as int)),
            handles@.len() == min,
            world.same_state(*old(world)),
        decreases START_LIFE + 1 - min,
    {
        let ghost before = world.entities;
        let marker = world.entities.spawn(
            Record {
                kind: Kind::Life(UiLife { min }),
                body: None,
                collider: None,
                scope: ForState::app(AppState::Game),
                visible: true,
            },
        );
        proof {
            old(world).entities.lemma_grown_push(
                before,
                world.entities,
                handles@,
                hud_records().take(min as int),
                marker,
                life_record(min),
            );
            assert(hud_records().take(min + 1) =~= hud_records().take(min as int).push(
                life_record(min),
            ));
        }
        handles.push(marker);
        min += 1;
    }
    proof {
        assert(hud_records().take(START_LIFE + 1) =~= hud_records());
    }
    handles
}

/// The lives to show for the player `player`: the lives of the ship it names,
/// and none if it names no ship.
pub open spec fn lives_of(registry: Registry, player: Option<Entity>) -> u32 {
    match player {
        Some(e) => if registry.live(e) {
            match registry.record(e).kind {
                Kind::Ship(ship) => ship.life,
                _ => 0,
            }
        } else {
            0
        },
        None => 0,
    }
}

/// The record of an entity when `life` lives are shown: a life marker is
/// visible if the lives reach its number.
pub open spec fn life_marked(record: Record, life: u32) -> Record {
    match record.kind {
        Kind::Life(marker) => Record { visible: marker.shown(life), ..record },
        _ => record,
    }
}

/// The showing of `life` lives as a rule on records: it removes nothing.
pub open spec fn life_rule(life: u32) -> spec_fn(Record) -> Option<Record> {
    |r: Record| Some(life_marked(r, life))
}

/// Shows and hides the life markers for `life` lives.
pub fn show_lives(world: &mut World, life: u32)
    ensures
        old(world).entities.stepped(final(world).entities, life_rule(life)),
        final(world).same_state(*old(world)),
        final(world).entities.slots() == old(world).entities.slots(),
        old(world).entities.at_most_one_ship() ==> final(world).entities.at_most_one_ship(),
{
    let n = world.entities.slot_count();
    let mut i: usize = 0;
    while i < n
        invariant
            i <= n,
            n == old(world).entities.slots(),
            old(world).entities.stepped_below(world.entities, life_rule(life), i as int),
            world.same_state(*old(world)),
        decreases n - i,
    {
        let ghost before = world.entities;
        match world.entities.entity_at(i) {
            Some(e) => {
                if let Some(record) = world.entities.record_mut(e) {
                    let shown = match &record.kind {
                        Kind::Life(marker) => Some(marker.visible(life)),
                        _ => None,
                    };
                    if let Some(visible) = shown {
                        record.visible = visible;
                    }
                }
                proof {
                    old(world).entities.lemma_step_slot(before, world.entities, life_rule(life), e);
                }
            },
            None => {
                proof {
                    old(world).entities.lemma_skip_slot(before, life_rule(life), i as int);
                }
            },
        }
        i += 1;
    }
    proof {
        old(world).entities.lemma_stepped_all(world.entities, life_rule(life), n as int);
    }
}

/// Shows as many life markers as the ship of `player` has lives; none if
/// `player` names no ship.
pub fn life_ui_system(world: &mut World, player: Option<Entity>)
    ensures
        old(world).entities.stepped(
            final(world).entities,
            life_rule(lives_of(old(world).entities, player)),
        ),
        final(world).same_state(*old(world)),
        final(world).entities.slots() == old(world).entities.slots(),
        old(world).entities.at_most_one_ship() ==> final(world).entities.at_most_one_ship(),
{
    let life = match player {
        Some(e) => match world.entities.get(e) {
            Some(record) => match &record.kind {
                Kind::Ship(ship) => ship.life,
                _ => 0,
            },
            None => 0,
        },
        None => 0,
    };
    show_lives(world, life);
}

/// The lives to show when the ship is looked up in the world: those of the
/// ship of player 1, and none without one.
pub open spec fn shows_player_one(registry: Registry, life: u32) -> bool {
    ||| life == 0 && forall|e: Entity| #[trigger]
        registry.live(e) ==> !(registry.record(e).kind is Ship)
    ||| exists|e: Entity| #[trigger]
        registry.live(e) && registry.record(e).kind is Ship && life == (if registry.record(
            e,
        ).kind->Ship_0.player_id == 1 {
            registry.record(e).kind->Ship_0.life
        } else {
            0
        })
}

/// Shows as many life markers as the ship of player 1 has lives, none if
/// there is no such ship, and returns the number of lives shown.
pub fn hud_life_system(world: &mut World) -> (life: u32)
    ensures
        shows_player_one(old(world).entities, life),
        old(world).entities.stepped(final(world).entities, life_rule(life)),
        final(world).same_state(*old(world)),
        final(world).entities.slots() == old(world).entities.slots(),
        old(world).entities.at_most_one_ship() ==> final(world).entities.at_most_one_ship(),
{
    let life = match world.entities.find_ship() {
        Some(e) => match world.entities.get(e) {
            Some(record) => match &record.kind {
                Kind::Ship(ship) => if ship.player_id == 1 {
                    ship.life
                } else {
                    0
                },
                _ => 0,
            },
            None => 0,
        },
        None => 0,
    };
    show_lives(world, life);
    life
}

} // verus!
