use kataster::arena::Arena;
use kataster::asteroid::{spawn_asteroid_event, AsteroidSize, AsteroidSpawnEvent};
use kataster::body::{Body, Collider, Facing, GameLayer, Shape};
use kataster::contact::{classify, contact_system, deliver, trigger_damage, Contact, Damage, Tags};
use kataster::explosion::{
    animate_explosion, catch_explosion_event, Explosion, ExplosionKind, SpawnExplosionEvent,
};
use kataster::laser::{
    laser_asteroid_collision, laser_timeout_system, spawn_laser, Laser, LaserSpawnMessage,
};
use kataster::player_ship::{spawn_ship, ShipHit};
use kataster::state::{AppState, ForState, Phase};
use kataster::timer::{Timer, TimerMode};
use kataster::world::{Entity, Kind, World};

const SHIP: Tags = Tags { ship: true, laser: false, asteroid: false };
const LASER: Tags = Tags { ship: false, laser: true, asteroid: false };
const ROCK: Tags = Tags { ship: false, laser: false, asteroid: true };
const OTHER: Tags = Tags { ship: false, laser: false, asteroid: false };

fn e(index: u32) -> Entity {
    Entity { index, generation: 0 }
}

fn rock_at(x: i64, y: i64, size: AsteroidSize) -> AsteroidSpawnEvent {
    AsteroidSpawnEvent { size, x, y, vx: 0, vy: 0, angvel: 0 }
}

fn shot_at(x: i64, y: i64) -> LaserSpawnMessage {
    LaserSpawnMessage { x, y, facing: Facing::up(), vx: 0, vy: 0 }
}

#[test]
fn pairs_are_sorted_by_kind_in_either_order() {
    assert_eq!(classify(e(1), SHIP, e(2), ROCK), Contact { ship: Some(e(1)), asteroid: Some(e(2)), laser: None });
    assert_eq!(classify(e(2), ROCK, e(1), SHIP), Contact { ship: Some(e(1)), asteroid: Some(e(2)), laser: None });
    assert_eq!(classify(e(1), LASER, e(2), ROCK), Contact { ship: None, asteroid: Some(e(2)), laser: Some(e(1)) });
    assert_eq!(classify(e(2), ROCK, e(1), LASER), Contact { ship: None, asteroid: Some(e(2)), laser: Some(e(1)) });
    assert_eq!(classify(e(1), ROCK, e(2), ROCK), Contact { ship: None, asteroid: Some(e(1)), laser: None });
    assert_eq!(classify(e(1), SHIP, e(2), LASER), Contact { ship: Some(e(1)), asteroid: None, laser: Some(e(2)) });
    assert_eq!(classify(e(1), OTHER, e(2), OTHER), Contact { ship: None, asteroid: None, laser: None });
}

#[test]
fn kinds_have_their_tags() {
    assert_eq!(Kind::Laser(Laser::new()).tags(), LASER);
    assert_eq!(Kind::Ship(kataster::player_ship::Ship::new()).tags(), SHIP);
    assert_eq!(Kind::Asteroid(kataster::asteroid::Asteroid { size: AsteroidSize::Small }).tags(), ROCK);
    assert_eq!(Kind::Explosion(Explosion::new(ExplosionKind::ShipDead)).tags(), OTHER);
}

#[test]
fn laser_velocity_adds_the_muzzle_speed_along_the_heading() {
    let up = LaserSpawnMessage { x: 1, y: 2, facing: Facing::up(), vx: 300, vy: 400 };
    assert_eq!(
        up.body(),
        Body { x: 1, y: 2, vx: 0, vy: 500_400, angvel: 0, facing: Facing::up(), force_x: 0, force_y: 0 }
    );
    let tilted = LaserSpawnMessage { x: 0, y: 0, facing: Facing { x: -600, y: -800 }, vx: 7, vy: 1000 };
    assert_eq!((tilted.body().vx, tilted.body().vy), (-300_000, -399_000));
    let fast = LaserSpawnMessage { vy: i64::MAX, ..up };
    assert_eq!(fast.body().vy, i64::MAX);
}

#[test]
fn lasers_are_created_as_asked() {
    let mut world = World::new();
    let handles = spawn_laser(&mut world, &vec![shot_at(5, 6), shot_at(7, 8)]);
    assert_eq!(handles.len(), 2);
    let record = world.entities.get(handles[1]).unwrap();
    assert!(matches!(record.kind, Kind::Laser(Laser { despawn_timer }) if despawn_timer == Timer::new(2_000_000_000, TimerMode::Once)));
    assert_eq!(record.body, Some(Body { vy: 500_000, ..Body::new(7, 8, 0, 0, 0) }));
    assert_eq!(
        record.collider,
        Some(Collider {
            shape: Shape::Rectangle { width: 2_500, height: 10_000 },
            layer: GameLayer::Laser,
            sensor: true
        })
    );
    assert_eq!(record.scope, ForState::app(AppState::Game));
}

#[test]
fn lasers_expire_after_two_seconds() {
    let mut world = World::new();
    let ship = spawn_ship(&mut world);
    let old = spawn_laser(&mut world, &vec![shot_at(0, 0)])[0];
    laser_timeout_system(&mut world, 1_500_000_000);
    let young = spawn_laser(&mut world, &vec![shot_at(0, 0)])[0];
    laser_timeout_system(&mut world, 499_999_999);
    assert!(world.entities.contains(old));
    assert!(world.entities.contains(young));
    laser_timeout_system(&mut world, 1);
    assert!(!world.entities.contains(old));
    assert!(world.entities.contains(young));
    assert!(world.entities.contains(ship));
    match &world.entities.get(young).unwrap().kind {
        Kind::Laser(laser) => assert_eq!(laser.despawn_timer.elapsed(), 500_000_000),
        other => panic!("{:?}", other),
    }
    laser_timeout_system(&mut world, 10_000_000_000);
    assert!(!world.entities.contains(young));
    assert!(world.entities.contains(ship));
}

#[test]
fn contacts_lead_to_signals() {
    let mut world = World::new();
    let ship = spawn_ship(&mut world);
    let rocks = spawn_asteroid_event(
        &mut world,
        &vec![rock_at(0, 0, AsteroidSize::Big), rock_at(9, 9, AsteroidSize::Small)],
    );
    let shots = spawn_laser(&mut world, &vec![shot_at(100, 200), shot_at(300, 400)]);
    let pairs = vec![
        (rocks[0], rocks[1]),
        (ship, shots[0]),
        (rocks[1], ship),
        (shots[0], rocks[0]),
        (ship, rocks[0]),
        // This laser was used up two pairs ago.
        (shots[0], rocks[1]),
        (rocks[1], shots[1]),
        (Entity { index: 99, generation: 0 }, rocks[0]),
    ];
    let report = contact_system(&mut world, &pairs);
    assert_eq!(
        report.damage,
        vec![
            Damage { entity: ship },
            Damage { entity: rocks[0] },
            Damage { entity: ship },
            Damage { entity: rocks[1] }
        ]
    );
    assert_eq!(
        report.explosions,
        vec![
            SpawnExplosionEvent { kind: ExplosionKind::LaserOnAsteroid, x: 100, y: 200 },
            SpawnExplosionEvent { kind: ExplosionKind::LaserOnAsteroid, x: 300, y: 400 },
        ]
    );
    assert!(!world.entities.contains(shots[0]));
    assert!(!world.entities.contains(shots[1]));
    // Contacts alone harm nobody.
    assert!(world.entities.contains(ship));
    assert!(world.entities.contains(rocks[0]));
    assert!(world.entities.contains(rocks[1]));
    let nothing = contact_system(&mut world, &Vec::new());
    assert!(nothing.damage.is_empty() && nothing.explosions.is_empty());
}

#[test]
fn a_laser_hits_one_asteroid_only() {
    let mut world = World::new();
    let rocks = spawn_asteroid_event(
        &mut world,
        &vec![rock_at(0, 0, AsteroidSize::Big), rock_at(9, 9, AsteroidSize::Small)],
    );
    let shot = spawn_laser(&mut world, &vec![shot_at(1, 2)])[0];
    let report = laser_asteroid_collision(&mut world, shot, &vec![shot, rocks[1], rocks[0]]);
    assert_eq!(report.damage, vec![Damage { entity: rocks[1] }]);
    assert_eq!(report.explosions, vec![SpawnExplosionEvent { kind: ExplosionKind::LaserOnAsteroid, x: 1, y: 2 }]);
    assert!(!world.entities.contains(shot));
    let report = laser_asteroid_collision(&mut world, shot, &vec![rocks[0]]);
    assert!(report.damage.is_empty());
}

#[test]
fn damage_goes_to_whom_it_names() {
    let mut world = World::new();
    world.arena = Some(Arena::new());
    let ship = spawn_ship(&mut world);
    let rock = spawn_asteroid_event(&mut world, &vec![rock_at(0, 0, AsteroidSize::Medium)])[0];
    let shot = spawn_laser(&mut world, &vec![shot_at(1, 2)])[0];
    let effect = trigger_damage(&mut world, Damage { entity: ship });
    assert_eq!(effect.ship.hit, Some(ShipHit::Damaged));
    assert!(effect.pieces.is_empty());
    assert_eq!(world.arena.unwrap().score, 0);
    let effect = trigger_damage(&mut world, Damage { entity: rock });
    assert_eq!(effect.ship.hit, None);
    assert_eq!(effect.pieces.len(), 4);
    assert_eq!(world.arena.unwrap().score, 20);
    let effect = trigger_damage(&mut world, Damage { entity: shot });
    assert_eq!(effect.ship.hit, None);
    assert!(effect.pieces.is_empty());
    assert!(world.entities.contains(shot));
}

#[test]
fn an_asteroid_hit_twice_counts_once() {
    let mut world = World::new();
    world.arena = Some(Arena::new());
    let ship = spawn_ship(&mut world);
    world.entities.record_mut(ship).unwrap().body = Some(Body::new(-4, 4, 0, 0, 0));
    let rocks = spawn_asteroid_event(
        &mut world,
        &vec![rock_at(0, 0, AsteroidSize::Big), rock_at(50_000, 0, AsteroidSize::Small)],
    );
    let signals = vec![
        Damage { entity: rocks[0] },
        Damage { entity: ship },
        Damage { entity: rocks[0] },
        Damage { entity: rocks[1] },
        Damage { entity: ship },
    ];
    let delivery = deliver(&mut world, &signals);
    assert_eq!(world.arena.unwrap().score, 50);
    assert_eq!(delivery.pieces.len(), 4);
    assert_eq!(delivery.explosions, vec![SpawnExplosionEvent { kind: ExplosionKind::ShipContact, x: -4, y: 4 }]);
    assert!(!delivery.game_over);
    assert!(world.entities.contains(ship));
    assert_eq!(world.entities.count_asteroids(), 0);
}

#[test]
fn explosions_grow_and_vanish() {
    let dead = Explosion::new(ExplosionKind::ShipDead);
    assert_eq!(dead.timer, Timer::new(2_000_000_000, TimerMode::Once));
    assert_eq!((dead.start_scale, dead.end_scale), (1000, 5000));
    assert_eq!(Explosion::new(ExplosionKind::ShipContact).end_scale, 2000);
    assert_eq!(Explosion::new(ExplosionKind::ShipContact).timer.duration(), 1_000_000_000);
    assert_eq!(Explosion::new(ExplosionKind::LaserOnAsteroid).end_scale, 1500);
    assert_eq!(ExplosionKind::ShipDead.size(), (42_000, 39_000));
    assert_eq!(ExplosionKind::ShipContact.size(), (42_000, 39_000));
    assert_eq!(ExplosionKind::LaserOnAsteroid.size(), (36_000, 32_000));
    let mut flash = Explosion::new(ExplosionKind::LaserOnAsteroid);
    assert_eq!(flash.scale(), 1000);
    assert!(!flash.age(500_000_000));
    assert_eq!(flash.scale(), 1250);
    assert!(!flash.age(333_333_333));
    assert_eq!(flash.scale(), 1416);
    assert!(flash.age(166_666_667));
    assert_eq!(flash.scale(), 1500);
    let shrinking = Explosion {
        kind: ExplosionKind::ShipDead,
        timer: Timer { elapsed: 1, duration: 3, mode: TimerMode::Once, finished: false },
        start_scale: 1000,
        end_scale: 0,
    };
    assert_eq!(shrinking.scale(), 666);
    let instant = Explosion { timer: Timer::new(0, TimerMode::Once), ..shrinking };
    assert_eq!(instant.scale(), 0);
}

#[test]
fn explosions_in_the_world_stand_still_while_paused() {
    let mut world = World::new();
    world.phase = Phase::Running;
    let events = vec![
        SpawnExplosionEvent { kind: ExplosionKind::LaserOnAsteroid, x: 1, y: 2 },
        SpawnExplosionEvent { kind: ExplosionKind::ShipDead, x: 3, y: 4 },
    ];
    let handles = catch_explosion_event(&mut world, &events);
    assert_eq!(handles.len(), 2);
    let record = world.entities.get(handles[1]).unwrap();
    assert!(matches!(record.kind, Kind::Explosion(explosion) if explosion == Explosion::new(ExplosionKind::ShipDead)));
    assert_eq!(record.body, Some(Body::new(3, 4, 0, 0, 0)));
    assert_eq!(record.collider, None);
    assert_eq!(record.scope, ForState::app(AppState::Game));
    world.phase = Phase::Paused;
    animate_explosion(&mut world, 10_000_000_000);
    assert!(world.entities.contains(handles[0]) && world.entities.contains(handles[1]));
    world.phase = Phase::Over;
    animate_explosion(&mut world, 1_000_000_000);
    assert!(!world.entities.contains(handles[0]));
    match &world.entities.get(handles[1]).unwrap().kind {
        Kind::Explosion(explosion) => assert_eq!(explosion.scale(), 3000),
        other => panic!("{:?}", other),
    }
    animate_explosion(&mut world, 1_000_000_000);
    assert!(!world.entities.contains(handles[1]));
}
