use kataster::arena::{movement, spawn_arena, wrap, wrap_axis, Arena, ARENA_HEIGHT, ARENA_WIDTH};
use kataster::body::{clamped_add, Body, Collider, Facing, GameLayer, Shape};
use kataster::state::{AppState, ForState};
use kataster::timer::TimerMode;
use kataster::world::{Kind, Record, World};
use kataster::hud::UiScore;

const HALF_WIDTH: i64 = 640_000;
const HALF_HEIGHT: i64 = 400_000;

#[test]
fn the_field_measures_1280_by_800() {
    assert_eq!(ARENA_WIDTH, 1_280_000);
    assert_eq!(ARENA_HEIGHT, 800_000);
    assert_eq!(ARENA_WIDTH / 2, HALF_WIDTH);
    assert_eq!(ARENA_HEIGHT / 2, HALF_HEIGHT);
}

#[test]
fn wrap_is_a_no_op_inside_the_bounds() {
    for x in [-HALF_WIDTH + 1, -1000, 0, 17, HALF_WIDTH - 1] {
        for y in [-HALF_HEIGHT + 1, 0, 399_999] {
            for (vx, vy) in [(5000, 5000), (-5000, 5000), (0, 0), (-1, -1), (700_000, -3)] {
                let body = Body::new(x, y, vx, vy, 250);
                assert_eq!(wrap(body), body);
            }
        }
    }
}

#[test]
fn wrap_moves_a_body_that_leaves_to_the_opposite_edge() {
    let leaving = Body::new(HALF_WIDTH + 1, 0, 5, 0, 0);
    let wrapped = wrap(leaving);
    assert_eq!(wrapped.x, -HALF_WIDTH);
    assert_eq!(wrapped.y, 0);
    assert_eq!(wrapped.vx, 5);
    assert_eq!(wrapped.vy, 0);
}

#[test]
fn wrap_leaves_a_body_that_comes_back_alone() {
    let returning = Body::new(HALF_WIDTH + 1, 0, -5, 0, 0);
    assert_eq!(wrap(returning), returning);
    let resting = Body::new(HALF_WIDTH + 1, 0, 0, 0, 0);
    assert_eq!(wrap(resting), resting);
}

#[test]
fn wrap_works_on_all_four_edges() {
    assert_eq!(wrap(Body::new(-HALF_WIDTH - 1, 3, -1, 0, 0)).x, HALF_WIDTH);
    assert_eq!(wrap(Body::new(3, HALF_HEIGHT + 2000, 0, 9, 0)).y, -HALF_HEIGHT);
    assert_eq!(wrap(Body::new(3, -HALF_HEIGHT - 2000, 0, -9, 0)).y, HALF_HEIGHT);
    let corner = wrap(Body::new(HALF_WIDTH + 1, -HALF_HEIGHT - 1, 1, -1, 77));
    assert_eq!((corner.x, corner.y), (-HALF_WIDTH, HALF_HEIGHT));
    assert_eq!(corner.angvel, 77);
    // On the edge itself nothing moves.
    assert_eq!(wrap(Body::new(HALF_WIDTH, HALF_HEIGHT, 1, 1, 0)).x, HALF_WIDTH);
    assert_eq!(wrap(Body::new(-HALF_WIDTH, -HALF_HEIGHT, -1, -1, 0)).y, -HALF_HEIGHT);
}

#[test]
fn wrap_axis_at_the_ends_of_the_number_range() {
    assert_eq!(wrap_axis(i64::MAX, 1, HALF_WIDTH), -HALF_WIDTH);
    assert_eq!(wrap_axis(i64::MIN, -1, HALF_WIDTH), HALF_WIDTH);
    assert_eq!(wrap_axis(i64::MIN, 1, HALF_WIDTH), i64::MIN);
    assert_eq!(wrap_axis(5, i64::MIN, 0), 5);
    assert_eq!(wrap_axis(5, 1, 0), 0);
    assert_eq!(wrap_axis(-5, -1, 0), 0);
}

#[test]
fn wrapping_twice_is_wrapping_once() {
    for body in [
        Body::new(HALF_WIDTH + 1, HALF_HEIGHT + 1, 5, 5, 0),
        Body::new(-HALF_WIDTH - 1, 0, -5, 5, 0),
        Body::new(0, 0, 5, 5, 0),
    ] {
        assert_eq!(wrap(wrap(body)), wrap(body));
    }
}

#[test]
fn clamped_add_stops_at_the_ends() {
    assert_eq!(clamped_add(1, 2), 3);
    assert_eq!(clamped_add(i64::MAX, 1), i64::MAX);
    assert_eq!(clamped_add(i64::MIN, -1), i64::MIN);
    assert_eq!(clamped_add(i64::MAX, i64::MIN), -1);
}

#[test]
fn a_new_arena_has_no_points_and_five_seconds_to_go() {
    let arena = Arena::new();
    assert_eq!(arena.score, 0);
    assert_eq!(arena.asteroid_spawn_timer.duration(), 5_000_000_000);
    assert_eq!(arena.asteroid_spawn_timer.elapsed(), 0);
    assert!(!arena.asteroid_spawn_timer.finished());
    assert_eq!(arena.asteroid_spawn_timer.mode, TimerMode::Once);
    let mut world = World::new();
    assert!(world.arena.is_none());
    world.arena = Some(Arena { score: 990, ..arena });
    spawn_arena(&mut world);
    assert_eq!(world.arena, Some(arena));
}

#[test]
fn layers_touch_only_where_an_asteroid_is_involved() {
    assert!(GameLayer::Asteroid.interacts(GameLayer::Asteroid));
    assert!(GameLayer::Asteroid.interacts(GameLayer::Player));
    assert!(GameLayer::Player.interacts(GameLayer::Asteroid));
    assert!(GameLayer::Laser.interacts(GameLayer::Asteroid));
    assert!(GameLayer::Asteroid.interacts(GameLayer::Laser));
    assert!(!GameLayer::Player.interacts(GameLayer::Laser));
    assert!(!GameLayer::Laser.interacts(GameLayer::Player));
    assert!(!GameLayer::Player.interacts(GameLayer::Player));
    assert!(!GameLayer::Laser.interacts(GameLayer::Laser));
}

fn thing(body: Option<Body>) -> Record {
    Record {
        kind: Kind::Score(UiScore {}),
        body,
        collider: Some(Collider { shape: Shape::Circle { radius: 5 }, layer: GameLayer::Asteroid, sensor: false }),
        scope: ForState::app(AppState::Game),
        visible: true,
    }
}

#[test]
fn movement_wraps_every_body_and_skips_entities_without_one() {
    let mut world = World::new();
    let leaving = world.entities.spawn(thing(Some(Body::new(HALF_WIDTH + 1, 0, 5, 0, 0))));
    let inside = world.entities.spawn(thing(Some(Body::new(10, 20, 5, -5, 3))));
    let bodiless = world.entities.spawn(thing(None));
    let turned = Body { facing: Facing { x: 1000, y: 0 }, ..Body::new(0, -HALF_HEIGHT - 5, 0, -1, 0) };
    let below = world.entities.spawn(thing(Some(turned)));
    movement(&mut world);
    assert_eq!(world.entities.get(leaving).unwrap().body, Some(Body::new(-HALF_WIDTH, 0, 5, 0, 0)));
    assert_eq!(world.entities.get(inside).unwrap().body, Some(Body::new(10, 20, 5, -5, 3)));
    assert_eq!(world.entities.get(bodiless).unwrap().body, None);
    assert_eq!(world.entities.get(below).unwrap().body, Some(Body { y: HALF_HEIGHT, ..turned }));
    assert_eq!(world.entities.slot_count(), 4);
}
