use particle_effects::{SpawnMode, Spawner};

#[test]
fn once_waits_for_a_trigger() {
    let mut spawner = Spawner::once(30, false);
    assert_eq!(spawner.mode(), SpawnMode::Once);
    assert!(!spawner.is_active());
    assert_eq!(spawner.tick(16_667), 0);
    assert_eq!(spawner.tick(16_667), 0);
    spawner.reset();
    assert!(spawner.is_active());
    assert_eq!(spawner.tick(16_667), 30);
    assert!(!spawner.is_active());
    assert_eq!(spawner.tick(16_667), 0);
    assert_eq!(spawner.tick(1_000_000), 0);
    spawner.reset();
    assert_eq!(spawner.tick(0), 30);
    assert_eq!(spawner.tick(0), 0);
}

#[test]
fn once_emits_on_start_when_asked() {
    let mut spawner = Spawner::once(5, true);
    assert!(spawner.is_active());
    assert_eq!(spawner.tick(1), 5);
    assert_eq!(spawner.tick(1), 0);
}

#[test]
fn two_triggers_before_a_tick_give_one_burst() {
    let mut spawner = Spawner::once(7, false);
    spawner.reset();
    spawner.reset();
    assert_eq!(spawner.tick(10), 7);
    assert_eq!(spawner.tick(10), 0);
}

#[test]
fn rate_emits_whole_particles_and_keeps_the_rest() {
    // 10 particles per second, ticks of a quarter second: 2.5 per tick.
    let mut spawner = Spawner::rate(10_000_000, true);
    assert_eq!(spawner.mode(), SpawnMode::Rate);
    assert_eq!(spawner.tick(250_000), 2);
    assert_eq!(spawner.tick(250_000), 3);
    assert_eq!(spawner.tick(250_000), 2);
    assert_eq!(spawner.tick(250_000), 3);
}

#[test]
fn rate_does_not_drift() {
    // 7 particles per second at sixty ticks a second, for ten seconds.
    let mut spawner = Spawner::rate(7_000_000, true);
    let mut total: u64 = 0;
    let mut elapsed: u64 = 0;
    for frame in 0..600u64 {
        let dt: u32 = if frame % 3 == 0 { 16_666 } else { 16_667 };
        let emitted = spawner.tick(dt);
        assert!(emitted <= 1);
        total += emitted;
        elapsed += dt as u64;
        assert_eq!(total, 7 * elapsed / 1_000_000);
    }
    assert_eq!(elapsed, 10_000_000);
    assert_eq!(total, 70);
    assert_eq!(spawner.tick(142_857), 0);
    assert_eq!(spawner.tick(1), 1);
}

#[test]
fn rate_is_the_same_however_time_is_cut() {
    let mut coarse = Spawner::rate(1_000_000_000, true);
    let mut fine = Spawner::rate(1_000_000_000, true);
    let at_once = coarse.tick(123_456);
    let mut in_steps: u64 = 0;
    for _ in 0..123_456 {
        in_steps += fine.tick(1);
    }
    assert_eq!(at_once, 123);
    assert_eq!(in_steps, 123);
}

#[test]
fn idle_rate_spawner_emits_nothing_until_reset() {
    let mut spawner = Spawner::rate(100_000_000, false);
    assert_eq!(spawner.tick(1_000_000), 0);
    spawner.reset();
    assert_eq!(spawner.tick(1_000_000), 100);
    assert_eq!(spawner.tick(5_000), 0);
    assert_eq!(spawner.tick(5_000), 1);
}

#[test]
fn reset_forgets_what_was_owed() {
    let mut spawner = Spawner::rate(1_000_000, true);
    assert_eq!(spawner.tick(900_000), 0);
    spawner.reset();
    assert_eq!(spawner.tick(900_000), 0);
    assert_eq!(spawner.tick(100_000), 1);
}

#[test]
fn largest_rate_and_tick_do_not_overflow() {
    let mut spawner = Spawner::rate(u64::MAX, true);
    let emitted = spawner.tick(u32::MAX);
    assert_eq!(emitted, 79_228_162_495_817_593);
    assert_eq!(spawner.tick(0), 0);
    let mut burst = Spawner::once(u64::MAX, true);
    assert_eq!(burst.tick(u32::MAX), u64::MAX);
}

#[test]
fn rate_below_one_particle_per_second() {
    // half a particle per second: one particle every two seconds
    let mut spawner = Spawner::rate(500_000, true);
    assert_eq!(spawner.tick(1_000_000), 0);
    assert_eq!(spawner.tick(1_000_000), 1);
    assert_eq!(spawner.tick(1_999_999), 0);
    assert_eq!(spawner.tick(1), 1);
    // a millionth of a particle per second owes a particle after a million seconds
    let mut slow = Spawner::rate(1, true);
    let mut total: u64 = 0;
    for _ in 0..999 {
        total += slow.tick(1_000_000_000);
    }
    assert_eq!(total, 0);
    assert_eq!(slow.tick(999_999_999), 0);
    assert_eq!(slow.tick(1), 1);
    assert_eq!(slow.tick(0), 0);
    let mut third = Spawner::rate(333_333, true);
    let mut emitted: u64 = 0;
    for _ in 0..180 {
        emitted += third.tick(16_667);
    }
    // 180 ticks of 16_667 microseconds at 0.333333 per second
    assert_eq!(emitted, 333_333 * 180 * 16_667 / 1_000_000_000_000);
    assert_eq!(emitted, 1);
}
