use std::time::Duration;

use kataster::timer::{Timer, TimerMode, NANOS_PER_MILLI, NANOS_PER_SEC};

#[test]
fn new_timer_is_fresh() {
    let t = Timer::new(5 * NANOS_PER_SEC, TimerMode::Once);
    assert_eq!(t.elapsed(), 0);
    assert_eq!(t.duration(), 5_000_000_000);
    assert!(!t.finished());
    assert_eq!(t.remaining(), 5_000_000_000);
    let m = Timer::from_millis(200, TimerMode::Repeating);
    assert_eq!(m.duration(), 200 * NANOS_PER_MILLI);
    assert_eq!(m.mode, TimerMode::Repeating);
}

#[test]
fn once_timer_stops_at_its_duration() {
    let mut t = Timer::from_millis(1000, TimerMode::Once);
    t.tick(400_000_000);
    assert_eq!(t.elapsed(), 400_000_000);
    assert!(!t.finished());
    assert_eq!(t.remaining(), 600_000_000);
    t.tick(700_000_000);
    assert!(t.finished());
    assert_eq!(t.elapsed(), 1_000_000_000);
    assert_eq!(t.remaining(), 0);
    // A finished one-shot timer ignores further steps.
    t.tick(5_000_000_000);
    assert!(t.finished());
    assert_eq!(t.elapsed(), 1_000_000_000);
}

#[test]
fn once_timer_finishes_exactly_at_its_duration() {
    let mut t = Timer::new(10, TimerMode::Once);
    t.tick(9);
    assert!(!t.finished());
    t.tick(1);
    assert!(t.finished());
}

#[test]
fn once_timer_survives_huge_steps() {
    let mut t = Timer::new(u64::MAX, TimerMode::Once);
    t.tick(u64::MAX - 1);
    assert!(!t.finished());
    t.tick(u64::MAX);
    assert!(t.finished());
    assert_eq!(t.elapsed(), u64::MAX);
}

#[test]
fn repeating_timer_keeps_the_remainder() {
    let mut t = Timer::from_millis(500, TimerMode::Repeating);
    t.tick(300_000_000);
    assert!(!t.finished());
    t.tick(300_000_000);
    assert!(t.finished());
    assert_eq!(t.elapsed(), 100_000_000);
    t.tick(100_000_000);
    assert!(!t.finished());
    assert_eq!(t.elapsed(), 200_000_000);
    t.tick(1_350_000_000);
    assert!(t.finished());
    assert_eq!(t.elapsed(), 50_000_000);
}

#[test]
fn repeating_timer_of_no_duration_always_fires() {
    let mut t = Timer::new(0, TimerMode::Repeating);
    t.tick(0);
    assert!(t.finished());
    assert_eq!(t.elapsed(), 0);
    t.tick(17);
    assert!(t.finished());
    assert_eq!(t.elapsed(), 0);
}

#[test]
fn reset_and_set_duration() {
    let mut t = Timer::from_millis(1000, TimerMode::Once);
    t.tick(2_000_000_000);
    assert!(t.finished());
    t.set_duration(3_000_000_000);
    // Changing the duration does not touch the state.
    assert!(t.finished());
    assert_eq!(t.elapsed(), 1_000_000_000);
    t.reset();
    assert!(!t.finished());
    assert_eq!(t.elapsed(), 0);
    assert_eq!(t.duration(), 3_000_000_000);
    assert_eq!(t.mode, TimerMode::Once);
}

fn same_state(ours: &Timer, theirs: &bevy::time::Timer) -> bool {
    ours.finished() == theirs.finished()
        && ours.elapsed() as u128 == theirs.elapsed().as_nanos()
        && ours.duration() as u128 == theirs.duration().as_nanos()
        && ours.remaining() as u128 == theirs.remaining().as_nanos()
}

#[test]
fn once_timer_agrees_with_the_engine_timer() {
    let steps: [u64; 12] = [0, 1, 999, 250_000_000, 16_666_667, 0, 700_000_000, 5, 33_333_333, 1, 2_000_000_000, 7];
    for duration in [0u64, 1, 1000, 500_000_000, 1_000_000_000, 2_000_000_000] {
        let mut ours = Timer::new(duration, TimerMode::Once);
        let mut theirs = bevy::time::Timer::new(Duration::from_nanos(duration), bevy::time::TimerMode::Once);
        assert!(same_state(&ours, &theirs));
        for (i, step) in steps.iter().enumerate() {
            ours.tick(*step);
            theirs.tick(Duration::from_nanos(*step));
            assert!(same_state(&ours, &theirs), "duration {} step {}", duration, i);
            if i == 8 {
                ours.reset();
                theirs.reset();
                assert!(same_state(&ours, &theirs));
            }
            if i == 9 {
                ours.set_duration(duration / 2 + 3);
                theirs.set_duration(Duration::from_nanos(duration / 2 + 3));
                assert!(same_state(&ours, &theirs));
            }
        }
    }
}

#[test]
fn repeating_timer_agrees_with_the_engine_timer() {
    let steps: [u64; 10] = [0, 1, 999, 250_000_000, 16_666_667, 1_700_000_000, 5, 499_999_999, 1, 3_000_000_001];
    for duration in [0u64, 1, 1000, 500_000_000, 1_000_000_000] {
        let mut ours = Timer::new(duration, TimerMode::Repeating);
        let mut theirs =
            bevy::time::Timer::new(Duration::from_nanos(duration), bevy::time::TimerMode::Repeating);
        for (i, step) in steps.iter().enumerate() {
            ours.tick(*step);
            theirs.tick(Duration::from_nanos(*step));
            assert_eq!(ours.finished(), theirs.finished(), "duration {} step {}", duration, i);
            assert_eq!(ours.elapsed() as u128, theirs.elapsed().as_nanos(), "duration {} step {}", duration, i);
        }
    }
}
