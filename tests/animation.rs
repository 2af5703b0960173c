use orbital::animation::{AnimationError, PlanetAnimation, PLANET_FRAMES, PLANET_TICK_NANOS};

const MS: u64 = 1_000_000;

#[test]
fn new_animation_starts_at_first_frame() {
    let a = PlanetAnimation::new();
    assert_eq!(a.get_atlas_index(), 0);
    assert!(!a.changed());
    assert_eq!(PLANET_FRAMES, 1200);
    assert_eq!(PLANET_TICK_NANOS, 40 * MS);
}

#[test]
fn three_elapses_in_ticks_of_period_length() {
    let mut a = PlanetAnimation::with_config(3, 40 * MS).unwrap();
    let mut seen = Vec::new();
    for _ in 0..3 {
        a.update_timer(40 * MS);
        assert!(a.changed());
        seen.push(a.get_atlas_index());
    }
    assert_eq!(seen, vec![1, 2, 0]);
}

#[test]
fn three_elapses_in_small_ticks() {
    let mut a = PlanetAnimation::with_config(3, 40 * MS).unwrap();
    let mut changes = Vec::new();
    for _ in 0..12 {
        a.update_timer(10 * MS);
        changes.push(a.changed());
    }
    let expected: Vec<bool> = (1..=12).map(|i| i % 4 == 0).collect();
    assert_eq!(changes, expected);
    assert_eq!(a.get_atlas_index(), 0);
}

#[test]
fn changed_is_a_one_tick_pulse() {
    let mut a = PlanetAnimation::new();
    a.update_timer(40 * MS);
    assert!(a.changed());
    assert_eq!(a.get_atlas_index(), 1);
    a.update_timer(MS);
    assert!(!a.changed());
    assert_eq!(a.get_atlas_index(), 1);
}

#[test]
fn one_long_tick_moves_one_frame_per_period() {
    let mut a = PlanetAnimation::with_config(5, 40 * MS).unwrap();
    a.update_timer(130 * MS);
    assert!(a.changed());
    assert_eq!(a.get_atlas_index(), 3);
    // 10 ms are left over toward the next frame.
    a.update_timer(29 * MS);
    assert!(!a.changed());
    assert_eq!(a.get_atlas_index(), 3);
    a.update_timer(MS);
    assert!(a.changed());
    assert_eq!(a.get_atlas_index(), 4);
}

#[test]
fn single_update_of_three_periods_moves_three_frames() {
    let mut a = PlanetAnimation::with_config(3, 40 * MS).unwrap();
    a.update_timer(120 * MS);
    assert!(a.changed());
    assert_eq!(a.get_atlas_index(), 0);
    a.update_timer(40 * MS);
    assert_eq!(a.get_atlas_index(), 1);
}

#[test]
fn uneven_split_of_three_periods_from_second_frame() {
    let mut a = PlanetAnimation::with_config(3, 40 * MS).unwrap();
    a.update_timer(40 * MS);
    assert_eq!(a.get_atlas_index(), 1);
    let mut changes = Vec::new();
    for d in [10, 30, 40, 40] {
        a.update_timer(d * MS);
        changes.push(a.changed());
    }
    assert_eq!(changes, vec![false, true, true, true]);
    assert_eq!(a.get_atlas_index(), 1);
}

#[test]
fn planet_animation_wraps_after_full_cycle() {
    let mut a = PlanetAnimation::new();
    for _ in 0..1199 {
        a.update_timer(40 * MS);
    }
    assert_eq!(a.get_atlas_index(), 1199);
    a.update_timer(40 * MS);
    assert_eq!(a.get_atlas_index(), 0);
}

#[test]
fn largest_delta_does_not_overflow() {
    let mut a = PlanetAnimation::with_config(7, 3).unwrap();
    a.update_timer(2);
    a.update_timer(u64::MAX);
    assert!(a.changed());
    // 2 + (2^64 - 1) is 6148914691236517205 periods of 3 ns and 2 ns more;
    // that many periods move a 7-frame cycle on by 5.
    assert_eq!(a.get_atlas_index(), 5);
    a.update_timer(0);
    assert!(!a.changed());
    a.update_timer(1);
    assert!(a.changed());
    assert_eq!(a.get_atlas_index(), 6);
}

#[test]
fn reads_are_stable_between_ticks() {
    let mut a = PlanetAnimation::new();
    a.update_timer(45 * MS);
    assert_eq!(a.get_atlas_index(), a.get_atlas_index());
    assert_eq!(a.changed(), a.changed());
}

#[test]
fn config_errors() {
    assert_eq!(PlanetAnimation::with_config(0, 40 * MS).err(), Some(AnimationError::NoFrames));
    assert_eq!(PlanetAnimation::with_config(0, 0).err(), Some(AnimationError::NoFrames));
    assert_eq!(PlanetAnimation::with_config(3, 0).err(), Some(AnimationError::ZeroTick));
}
