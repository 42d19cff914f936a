use forza_dualsense_core::utils::{amp_to_strength, wall_state};

#[test]
fn test_amp_to_strength() {
    assert_eq!(amp_to_strength(0), 1);
    assert_eq!(amp_to_strength(255), 8);
    assert_eq!(amp_to_strength(32), 2);
}

#[test]
fn test_wall_state() {
    assert_eq!(wall_state(100, false, 200, 100), false);
    assert_eq!(wall_state(250, false, 200, 100), true);
    assert_eq!(wall_state(150, true, 200, 100), true);
    assert_eq!(wall_state(50, true, 200, 100), false);
}

#[test]
fn amp_to_strength_steps_every_32() {
    assert_eq!(amp_to_strength(31), 1);
    assert_eq!(amp_to_strength(63), 2);
    assert_eq!(amp_to_strength(64), 3);
    assert_eq!(amp_to_strength(224), 8);
    let mut prev = amp_to_strength(0);
    for a in 1..=255u8 {
        let s = amp_to_strength(a);
        assert!(s >= prev && (1..=8).contains(&s));
        prev = s;
    }
}

#[test]
fn wall_hysteresis_holds_between_release_and_engage() {
    // Between the release point and the engage point the previous state decides.
    assert!(!wall_state(220, false, 250, 200));
    assert!(wall_state(220, true, 250, 200));
    // The thresholds themselves count as reached.
    assert!(wall_state(250, false, 250, 200));
    assert!(wall_state(200, true, 250, 200));
    assert!(!wall_state(199, true, 250, 200));
}
