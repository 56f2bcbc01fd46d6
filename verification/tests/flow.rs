use kataster::arena::Arena;
use kataster::asteroid::{spawn_asteroid_event, Asteroid, AsteroidSize, AsteroidSpawnEvent};
use kataster::body::{Body, Facing};
use kataster::flow::{blink_texts, menu_frame, on_enter, request, select_entry, selection};
use kataster::game::{after_physics, before_physics, Requests};
use kataster::hud::{
    hud_life_system, hud_score_system, hud_spawn, life_ui_system, score_ui_system, show_lives, UiLife, UiScore,
};
use kataster::laser::{spawn_laser, LaserSpawnMessage};
use kataster::menu::{DrawBlink, MenuInput};
use kataster::player_ship::{spawn_ship, PlayerInput, Ship};
use kataster::state::{AppState, ForState, GameState, MenuOutcome, Phase};
use kataster::timer::{Timer, TimerMode};
use kataster::world::{Entity, Kind, Record, Registry, World};

const QUIET: MenuInput = MenuInput {
    menu_up: false,
    menu_down: false,
    accept: false,
    pause_unpause: false,
    exit_to_menu: false,
    quit: false,
};
const ACCEPT: MenuInput = MenuInput { accept: true, ..QUIET };
const PAUSE: MenuInput = MenuInput { pause_unpause: true, ..QUIET };
const DOWN: MenuInput = MenuInput { menu_down: true, ..QUIET };
const EXIT: MenuInput = MenuInput { exit_to_menu: true, ..QUIET };
const QUIT: MenuInput = MenuInput { quit: true, ..QUIET };
const IDLE: PlayerInput = PlayerInput { forward: false, rotate_left: false, rotate_right: false, fire: false };
const NOTHING: MenuOutcome = MenuOutcome { next_app: None, next_game: None, physics: None, exit: false };
const TICK: u64 = 16_666_667;

fn marker(scope: ForState) -> Record {
    Record { kind: Kind::Score(UiScore {}), body: None, collider: None, scope, visible: true }
}

fn alive(registry: &Registry) -> Vec<Entity> {
    (0..registry.slot_count()).filter_map(|i| registry.entity_at(i)).collect()
}

fn medium_places(world: &World) -> Vec<(i64, i64)> {
    let mut places = Vec::new();
    for e in alive(&world.entities) {
        let record = world.entities.get(e).unwrap();
        if let Kind::Asteroid(Asteroid { size: AsteroidSize::Medium }) = record.kind {
            let body = record.body.unwrap();
            places.push((body.x, body.y));
        }
    }
    places.sort();
    places
}

#[test]
fn phases_pair_the_outer_state_with_the_session_state() {
    assert_eq!(Phase::Setup.app_state(), AppState::Setup);
    assert_eq!(Phase::Menu.game_state(), None);
    assert_eq!(Phase::Credits.app_state(), AppState::Credits);
    for (phase, game) in [
        (Phase::GameSetup, GameState::Setup),
        (Phase::Running, GameState::Running),
        (Phase::Paused, GameState::Paused),
        (Phase::Over, GameState::Over),
    ] {
        assert_eq!(phase.app_state(), AppState::Game);
        assert_eq!(phase.game_state(), Some(game));
        assert_eq!(Phase::of_game(game), phase);
    }
    assert_eq!(Phase::Menu.enter_app(AppState::Game), Phase::GameSetup);
    assert_eq!(Phase::Paused.enter_app(AppState::Game), Phase::Paused);
    assert_eq!(Phase::Paused.enter_app(AppState::Menu), Phase::Menu);
    assert_eq!(Phase::Menu.enter_app(AppState::Credits), Phase::Credits);
}

#[test]
fn outcomes_move_the_phase() {
    assert_eq!(MenuOutcome::none(), NOTHING);
    assert_eq!(Phase::Running.apply(NOTHING), Phase::Running);
    let pause = MenuOutcome { next_game: Some(GameState::Paused), ..NOTHING };
    assert_eq!(Phase::Running.apply(pause), Phase::Paused);
    // Outside a session there is no session state to change.
    assert_eq!(Phase::Menu.apply(pause), Phase::Menu);
    let leave = MenuOutcome { next_app: Some(AppState::Menu), next_game: Some(GameState::Running), ..NOTHING };
    assert_eq!(Phase::Paused.apply(leave), Phase::Menu);
    let start = MenuOutcome { next_app: Some(AppState::Game), next_game: Some(GameState::Running), ..NOTHING };
    assert_eq!(Phase::Menu.apply(start), Phase::GameSetup);
}

#[test]
fn scopes_hold_the_phases_of_their_state() {
    let session = ForState::app(AppState::Game);
    for phase in [Phase::GameSetup, Phase::Running, Phase::Paused, Phase::Over] {
        assert!(session.contains(phase));
    }
    for phase in [Phase::Setup, Phase::Menu, Phase::Credits] {
        assert!(!session.contains(phase));
    }
    let running = ForState::game(GameState::Running);
    assert!(running.contains(Phase::Running));
    assert!(!running.contains(Phase::Paused));
    assert!(!running.contains(Phase::Menu));
    assert!(ForState::app(AppState::Menu).contains(Phase::Menu));
    assert!(!ForState::app(AppState::Menu).contains(Phase::Credits));
    assert!(ForState::always().contains(Phase::Setup) && ForState::always().contains(Phase::Over));
}

#[test]
fn entering_a_phase_tears_down_what_does_not_belong() {
    let mut world = World::new();
    world.phase = Phase::Running;
    let only_running = world.entities.spawn(marker(ForState::game(GameState::Running)));
    let session = world.entities.spawn(marker(ForState::app(AppState::Game)));
    let forever = world.entities.spawn(marker(ForState::always()));
    let ship = spawn_ship(&mut world);
    world.enter(Phase::Paused);
    assert_eq!(world.phase, Phase::Paused);
    assert!(!world.physics_running);
    // Tagged for Running only: gone with the pause.
    assert!(!world.entities.contains(only_running));
    // Tagged for the session, as all gameplay entities are: still there.
    assert!(world.entities.contains(session));
    assert!(world.entities.contains(ship));
    assert!(world.entities.contains(forever));
    world.enter(Phase::Running);
    assert!(world.physics_running);
    assert!(world.entities.contains(session));
    world.enter(Phase::Over);
    assert!(world.physics_running);
    assert!(world.entities.contains(session));
    world.enter(Phase::Menu);
    assert!(!world.entities.contains(session));
    assert!(!world.entities.contains(ship));
    assert!(world.entities.contains(forever));
    assert_eq!(alive(&world.entities), vec![forever]);
}

#[test]
fn sweeping_does_not_change_the_phase() {
    let mut world = World::new();
    let menu = world.entities.spawn(marker(ForState::app(AppState::Menu)));
    let game = world.entities.spawn(marker(ForState::app(AppState::Game)));
    world.sweep(Phase::Menu);
    assert_eq!(world.phase, Phase::Setup);
    assert!(world.entities.contains(menu));
    assert!(!world.entities.contains(game));
}

#[test]
fn applying_an_outcome_enters_the_next_phase() {
    let mut world = World::new();
    world.phase = Phase::Paused;
    world.physics_running = false;
    let paused_only = world.entities.spawn(marker(ForState::game(GameState::Paused)));
    assert!(!world.apply(NOTHING));
    assert!(world.entities.contains(paused_only));
    // The old menus let the physics run again on the way out.
    let out = MenuOutcome { next_app: Some(AppState::Menu), physics: Some(true), ..NOTHING };
    assert!(world.apply(out));
    assert_eq!(world.phase, Phase::Menu);
    assert!(world.physics_running);
    assert!(!world.entities.contains(paused_only));
    // A request for the phase the world is in changes nothing.
    assert!(!world.apply(MenuOutcome { next_app: Some(AppState::Menu), ..NOTHING }));
}

#[test]
fn handles_go_stale_and_slots_are_let_again() {
    let mut registry = Registry::new();
    assert_eq!(registry.slot_count(), 0);
    let a = registry.spawn(marker(ForState::always()));
    let b = registry.spawn(marker(ForState::always()));
    assert_eq!((a.index, b.index), (0, 1));
    assert!(registry.contains(a) && registry.contains(b));
    assert!(registry.despawn(a));
    assert!(!registry.contains(a));
    assert!(registry.get(a).is_none());
    assert!(registry.record_mut(a).is_none());
    assert!(!registry.despawn(a));
    assert_eq!(registry.entity_at(0), None);
    let c = registry.spawn(marker(ForState::always()));
    assert_eq!(c.index, 0);
    assert_ne!(c, a);
    assert!(!registry.contains(a));
    assert!(registry.contains(c));
    assert_eq!(registry.entity_at(0), Some(c));
    assert_eq!(registry.entity_at(1), Some(b));
    assert_eq!(registry.entity_at(2), None);
    assert_eq!(registry.slot_count(), 2);
    registry.record_mut(b).unwrap().visible = false;
    assert!(!registry.get(b).unwrap().visible);
    assert!(registry.get(c).unwrap().visible);
    assert!(!registry.contains(Entity { index: 1, generation: 5 }));
    assert!(!registry.contains(Entity { index: 7, generation: 0 }));
}

#[test]
fn the_display_shows_score_and_lives() {
    assert_eq!(score_ui_system(true, 120), Some(120));
    assert_eq!(score_ui_system(false, 120), None);
    assert!(UiLife { min: 2 }.visible(2));
    assert!(UiLife { min: 2 }.visible(3));
    assert!(!UiLife { min: 2 }.visible(1));
    let mut world = World::new();
    assert_eq!(hud_score_system(&world, true), None);
    world.arena = Some(Arena { score: 70, ..Arena::new() });
    assert_eq!(hud_score_system(&world, true), Some(70));
    assert_eq!(hud_score_system(&world, false), None);
    let hud = hud_spawn(&mut world);
    assert_eq!(hud.len(), 4);
    assert!(matches!(world.entities.get(hud[0]).unwrap().kind, Kind::Score(_)));
    for (i, e) in hud.iter().enumerate().skip(1) {
        let record = world.entities.get(*e).unwrap();
        assert!(matches!(record.kind, Kind::Life(UiLife { min }) if min == i as u32));
        assert_eq!(record.scope, ForState::app(AppState::Game));
    }
    let shown = |world: &World| -> Vec<bool> {
        hud[1..].iter().map(|e| world.entities.get(*e).unwrap().visible).collect()
    };
    // No ship: no lives.
    assert_eq!(hud_life_system(&mut world), 0);
    assert_eq!(shown(&world), vec![false, false, false]);
    let ship = spawn_ship(&mut world);
    assert_eq!(hud_life_system(&mut world), 3);
    assert_eq!(shown(&world), vec![true, true, true]);
    if let Kind::Ship(tag) = &mut world.entities.record_mut(ship).unwrap().kind {
        tag.life = 1;
    }
    life_ui_system(&mut world, Some(ship));
    assert_eq!(shown(&world), vec![true, false, false]);
    life_ui_system(&mut world, Some(hud[0]));
    assert_eq!(shown(&world), vec![false, false, false]);
    show_lives(&mut world, 2);
    assert_eq!(shown(&world), vec![true, true, false]);
    life_ui_system(&mut world, None);
    assert_eq!(shown(&world), vec![false, false, false]);
    assert!(world.entities.get(hud[0]).unwrap().visible);
    // The ship of another player is not counted.
    if let Kind::Ship(tag) = &mut world.entities.record_mut(ship).unwrap().kind {
        tag.player_id = 2;
    }
    assert_eq!(hud_life_system(&mut world), 0);
}

#[test]
fn entering_a_session_sets_it_up() {
    let mut world = World::new();
    world.arena = Some(Arena { score: 500, ..Arena::new() });
    world.enter(Phase::GameSetup);
    let entered = on_enter(&mut world);
    assert_eq!(world.arena, Some(Arena::new()));
    let ship = entered.ship.unwrap();
    assert!(matches!(&world.entities.get(ship).unwrap().kind, Kind::Ship(tag) if *tag == Ship::new()));
    assert_eq!(entered.hud.len(), 4);
    assert!(entered.menu.is_none());
    assert_eq!(world.entities.slot_count(), 5);
    world.enter(Phase::Running);
    let entered = on_enter(&mut world);
    assert!(entered.ship.is_none() && entered.hud.is_empty() && entered.menu.is_none());
    assert_eq!(world.entities.slot_count(), 5);
}

#[test]
fn the_selection_of_the_menu_on_screen() {
    let mut world = World::new();
    assert_eq!(selection(&world.entities), None);
    world.enter(Phase::Menu);
    let menu = on_enter(&mut world).menu.unwrap();
    assert_eq!(selection(&world.entities), Some(0));
    select_entry(&mut world, DOWN);
    assert_eq!(selection(&world.entities), Some(1));
    select_entry(&mut world, MenuInput { menu_up: true, ..QUIET });
    select_entry(&mut world, MenuInput { menu_up: true, ..QUIET });
    assert_eq!(selection(&world.entities), Some(2));
    // A menu whose selection is out of range is left alone.
    if let Kind::Menu(handler) = &mut world.entities.record_mut(menu.menu).unwrap().kind {
        handler.selected_id = 7;
    }
    select_entry(&mut world, DOWN);
    assert_eq!(selection(&world.entities), Some(7));
}

#[test]
fn requests_by_phase() {
    assert_eq!(request(Phase::Setup, QUIET, None), MenuOutcome { next_app: Some(AppState::Menu), ..NOTHING });
    assert_eq!(request(Phase::Menu, ACCEPT, Some(0)), MenuOutcome { next_app: Some(AppState::Game), ..NOTHING });
    // Without a menu on screen the first entry counts as selected.
    assert_eq!(request(Phase::Menu, ACCEPT, None), MenuOutcome { next_app: Some(AppState::Game), ..NOTHING });
    assert_eq!(request(Phase::Menu, ACCEPT, Some(1)), MenuOutcome { next_app: Some(AppState::Credits), ..NOTHING });
    assert_eq!(request(Phase::Menu, QUIT, Some(0)), MenuOutcome { exit: true, ..NOTHING });
    assert_eq!(request(Phase::Menu, EXIT, Some(0)), NOTHING);
    assert_eq!(request(Phase::Over, QUIT, None), MenuOutcome { exit: true, ..NOTHING });
    assert_eq!(request(Phase::Over, ACCEPT, None), MenuOutcome { next_app: Some(AppState::Menu), ..NOTHING });
    assert_eq!(request(Phase::Running, QUIT, None), NOTHING);
    assert_eq!(request(Phase::Paused, ACCEPT, None), MenuOutcome { next_game: Some(GameState::Running), ..NOTHING });
    let back = MenuOutcome { next_app: Some(AppState::Menu), physics: Some(true), ..NOTHING };
    for phase in [Phase::Setup, Phase::Credits, Phase::GameSetup, Phase::Running, Phase::Paused, Phase::Over] {
        assert_eq!(request(phase, EXIT, Some(2)), back);
        assert_eq!(request(phase, MenuInput { accept: true, pause_unpause: true, quit: true, ..EXIT }, None), back);
    }
    assert_eq!(request(Phase::Menu, QUIET, Some(0)), NOTHING);
    assert_eq!(request(Phase::Credits, ACCEPT, Some(0)), MenuOutcome { next_app: Some(AppState::Menu), ..NOTHING });
    assert_eq!(
        request(Phase::GameSetup, QUIET, None),
        MenuOutcome { next_game: Some(GameState::Running), ..NOTHING }
    );
    assert_eq!(request(Phase::Running, PAUSE, None), MenuOutcome { next_game: Some(GameState::Paused), ..NOTHING });
    assert_eq!(request(Phase::Over, ACCEPT, Some(1)), MenuOutcome { exit: true, ..NOTHING });
}

#[test]
fn texts_blink_in_the_world() {
    let mut world = World::new();
    let blink = DrawBlink { timer: Timer::from_millis(500, TimerMode::Repeating), enabled: true };
    let text = world.entities.spawn(Record { kind: Kind::Blink(blink), ..marker(ForState::always()) });
    let still = world.entities.spawn(Record {
        kind: Kind::Blink(DrawBlink { enabled: false, ..blink }),
        ..marker(ForState::always())
    });
    let other = world.entities.spawn(marker(ForState::always()));
    blink_texts(&mut world, 300_000_000);
    assert!(world.entities.get(text).unwrap().visible);
    blink_texts(&mut world, 300_000_000);
    assert!(!world.entities.get(text).unwrap().visible);
    assert!(world.entities.get(still).unwrap().visible);
    assert!(world.entities.get(other).unwrap().visible);
    blink_texts(&mut world, 500_000_000);
    assert!(world.entities.get(text).unwrap().visible);
}

#[test]
fn a_walk_through_the_screens() {
    let mut world = World::new();
    assert_eq!(world.phase, Phase::Setup);
    // Boot is over after one tick.
    let frame = menu_frame(&mut world, TICK, QUIET);
    assert_eq!(world.phase, Phase::Menu);
    assert!(!frame.exit);
    let menu = frame.entered.unwrap().menu.unwrap();
    assert_eq!(world.entities.single_menu(), Some(menu.menu));
    // Nothing pressed: nothing happens.
    let frame = menu_frame(&mut world, TICK, QUIET);
    assert!(frame.entered.is_none());
    assert_eq!(world.phase, Phase::Menu);
    // Down to "Credits" and accept.
    menu_frame(&mut world, TICK, DOWN);
    assert_eq!(selection(&world.entities), Some(1));
    let frame = menu_frame(&mut world, TICK, ACCEPT);
    assert_eq!(world.phase, Phase::Credits);
    assert!(!world.entities.contains(menu.menu));
    let credits = frame.entered.unwrap().menu.unwrap();
    // Back to the menu, and into the game.
    menu_frame(&mut world, TICK, ACCEPT);
    assert_eq!(world.phase, Phase::Menu);
    assert!(!world.entities.contains(credits.menu));
    let frame = menu_frame(&mut world, TICK, ACCEPT);
    assert_eq!(world.phase, Phase::GameSetup);
    let entered = frame.entered.unwrap();
    let ship = entered.ship.unwrap();
    assert_eq!(world.arena, Some(Arena::new()));
    assert_eq!(world.entities.single_menu(), None);
    let frame = menu_frame(&mut world, TICK, QUIET);
    assert_eq!(world.phase, Phase::Running);
    assert!(world.physics_running);
    assert!(frame.entered.unwrap().menu.is_none());
    // Pause: the clock halts, the pause menu comes up, the ship stays.
    let frame = menu_frame(&mut world, TICK, PAUSE);
    assert_eq!(world.phase, Phase::Paused);
    assert!(!world.physics_running);
    let pause = frame.entered.unwrap().menu.unwrap();
    assert!(world.entities.contains(ship));
    // "Resume" is selected.
    menu_frame(&mut world, TICK, ACCEPT);
    assert_eq!(world.phase, Phase::Running);
    assert!(world.physics_running);
    assert!(!world.entities.contains(pause.menu));
    assert!(world.entities.contains(ship));
    // Pause again, and leave for the menu by the second entry.
    menu_frame(&mut world, TICK, PAUSE);
    menu_frame(&mut world, TICK, DOWN);
    menu_frame(&mut world, TICK, ACCEPT);
    assert_eq!(world.phase, Phase::Menu);
    assert!(!world.entities.contains(ship));
    for e in entered.hud {
        assert!(!world.entities.contains(e));
    }
    // The last entry of the menu leaves the program.
    menu_frame(&mut world, TICK, DOWN);
    menu_frame(&mut world, TICK, DOWN);
    let frame = menu_frame(&mut world, TICK, ACCEPT);
    assert!(frame.exit);
    assert_eq!(world.phase, Phase::Menu);
    assert!(menu_frame(&mut world, TICK, QUIT).exit);
}

#[test]
fn exit_to_menu_leaves_the_paused_game_and_frees_the_clock() {
    let (mut world, ship) = running_session();
    menu_frame(&mut world, TICK, PAUSE);
    assert_eq!(world.phase, Phase::Paused);
    assert!(!world.physics_running);
    let frame = menu_frame(&mut world, TICK, EXIT);
    assert_eq!(world.phase, Phase::Menu);
    assert!(world.physics_running);
    assert!(!frame.exit);
    assert!(frame.entered.unwrap().menu.is_some());
    assert!(!world.entities.contains(ship));
    // In the menu the key means nothing.
    let frame = menu_frame(&mut world, TICK, EXIT);
    assert!(frame.entered.is_none());
    assert_eq!(world.phase, Phase::Menu);
    // A new session starts with a new arena and a new ship.
    let (mut world, _) = running_session();
    world.arena = Some(Arena { score: 70, ..world.arena.unwrap() });
    menu_frame(&mut world, TICK, EXIT);
    let entered = menu_frame(&mut world, TICK, ACCEPT).entered.unwrap();
    assert_eq!(world.arena.unwrap().score, 0);
    assert!(world.entities.contains(entered.ship.unwrap()));
}

fn running_session() -> (World, Entity) {
    let mut world = World::new();
    menu_frame(&mut world, TICK, QUIET);
    let ship = menu_frame(&mut world, TICK, ACCEPT).entered.unwrap().ship.unwrap();
    menu_frame(&mut world, TICK, QUIET);
    assert_eq!(world.phase, Phase::Running);
    (world, ship)
}

#[test]
fn a_laser_destroys_a_big_asteroid_in_one_tick() {
    let (mut world, ship) = running_session();
    // Out of the way of what follows.
    world.entities.record_mut(ship).unwrap().body = Some(Body::new(-300_000, 0, 0, 0, 0));
    let rock = spawn_asteroid_event(
        &mut world,
        &vec![AsteroidSpawnEvent { size: AsteroidSize::Big, x: 0, y: 0, vx: 0, vy: 0, angvel: 0 }],
    )[0];
    let shot = spawn_laser(
        &mut world,
        &vec![LaserSpawnMessage { x: 0, y: 0, facing: Facing::up(), vx: 0, vy: 0 }],
    )[0];
    let score = world.arena.unwrap().score;
    let requests = before_physics(&mut world, TICK, Some(ship), IDLE);
    assert_eq!(requests, Requests { laser: None, arrival: None });
    // The physics step finds the laser on the asteroid.
    let report = after_physics(&mut world, &vec![(shot, rock)], requests);
    assert_eq!(world.arena.unwrap().score, score + 40);
    assert!(!world.entities.contains(shot));
    assert!(!world.entities.contains(rock));
    assert_eq!(medium_places(&world), vec![(-30_000, -30_000), (-30_000, 30_000), (30_000, -30_000), (30_000, 30_000)]);
    assert_eq!(world.entities.count_asteroids(), 4);
    assert_eq!(report.asteroids.len(), 4);
    assert_eq!(report.explosions.len(), 1);
    assert!(report.lasers.is_empty());
    assert_eq!(report.life, 3);
    assert!(!report.game_over);
    assert_eq!(world.phase, Phase::Running);
    assert!(world.entities.contains(ship));
}

#[test]
fn the_last_hit_ends_the_session_once() {
    let (mut world, ship) = running_session();
    if let Kind::Ship(tag) = &mut world.entities.record_mut(ship).unwrap().kind {
        tag.life = 1;
    }
    let rocks = spawn_asteroid_event(
        &mut world,
        &vec![
            AsteroidSpawnEvent { size: AsteroidSize::Big, x: 0, y: 0, vx: 0, vy: 0, angvel: 0 },
            AsteroidSpawnEvent { size: AsteroidSize::Small, x: 0, y: 0, vx: 0, vy: 0, angvel: 0 },
        ],
    );
    let requests = before_physics(&mut world, TICK, Some(ship), IDLE);
    let report = after_physics(&mut world, &vec![(ship, rocks[0]), (rocks[1], ship)], requests);
    assert!(report.game_over);
    assert_eq!(report.life, 0);
    assert_eq!(report.explosions.len(), 1);
    assert!(!world.entities.contains(ship));
    assert_eq!(world.phase, Phase::Over);
    // The asteroids are unharmed and stay for the end screen.
    assert_eq!(world.entities.count_asteroids(), 2);
    assert_eq!(world.arena.unwrap().score, 0);
    // Over: the gameplay systems rest.
    let slots = alive(&world.entities);
    let requests = before_physics(&mut world, 10_000_000_000, Some(ship), IDLE);
    assert_eq!(requests, Requests { laser: None, arrival: None });
    let report = after_physics(&mut world, &vec![(ship, rocks[0])], requests);
    assert!(!report.game_over);
    assert_eq!(alive(&world.entities), slots);
    assert_eq!(world.phase, Phase::Over);
    assert_eq!(world.arena.unwrap().asteroid_spawn_timer.elapsed(), TICK);
}

#[test]
fn a_tick_fires_spawns_and_wraps() {
    let (mut world, ship) = running_session();
    world.entities.record_mut(ship).unwrap().body = Some(Body::new(640_001, 0, 5000, 0, 0));
    let fire = PlayerInput { fire: true, forward: true, ..IDLE };
    // The cannon is not ready in the first fifth of a second.
    let requests = before_physics(&mut world, 100_000_000, Some(ship), fire);
    assert_eq!(requests.laser, None);
    let body = world.entities.get(ship).unwrap().body.unwrap();
    assert_eq!((body.x, body.y), (-640_000, 0));
    assert_eq!((body.force_x, body.force_y), (0, 300_000_000));
    after_physics(&mut world, &Vec::new(), requests);
    before_physics(&mut world, 100_000_000, Some(ship), IDLE);
    let requests = before_physics(&mut world, 4_700_000_000, Some(ship), fire);
    assert_eq!(
        requests.laser,
        Some(LaserSpawnMessage { x: -640_000, y: 0, facing: Facing::up(), vx: 5000, vy: 0 })
    );
    assert_eq!(requests.arrival, None);
    let report = after_physics(&mut world, &Vec::new(), requests);
    assert_eq!(report.lasers.len(), 1);
    let shot = report.lasers[0];
    assert_eq!(world.entities.get(shot).unwrap().body.unwrap().vy, 500_000);
    // Five seconds are over: the first asteroid arrives.
    let requests = before_physics(&mut world, 100_000_000, Some(ship), IDLE);
    let arrival = requests.arrival.unwrap();
    assert_eq!(arrival.size, AsteroidSize::Big);
    let report = after_physics(&mut world, &Vec::new(), requests);
    assert_eq!(report.asteroids.len(), 1);
    assert_eq!(world.entities.count_asteroids(), 1);
    assert_eq!(world.arena.unwrap().asteroid_spawn_timer.duration(), 4_000_000_000);
    // While paused nothing moves on.
    menu_frame(&mut world, TICK, PAUSE);
    let timer = world.arena.unwrap().asteroid_spawn_timer;
    let requests = before_physics(&mut world, 10_000_000_000, Some(ship), fire);
    assert_eq!(requests, Requests { laser: None, arrival: None });
    assert_eq!(world.arena.unwrap().asteroid_spawn_timer, timer);
    assert!(world.entities.contains(shot));
}
