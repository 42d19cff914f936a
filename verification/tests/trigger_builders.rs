use forza_dualsense_core::controller::TriggerMode;
use forza_dualsense_core::trigger_builders::{
    build_brake_walls, build_vibrating_resistance, build_wall, off, rigid, vibration,
    vibration_wall,
};

fn pulse_ab_zone_strength(mode: TriggerMode) -> u8 {
    match mode {
        TriggerMode::PulseAB(_, force, _) => ((force & 0b111) as u8) + 1,
        other => panic!("expected PulseAB, got {:?}", other),
    }
}

fn zone_levels(active: u16, strength: u32) -> [u8; 10] {
    let mut levels = [0u8; 10];
    for (i, level) in levels.iter_mut().enumerate() {
        if (active >> i) & 1 == 1 {
            *level = ((strength >> (3 * i)) & 7) as u8 + 1;
        }
    }
    levels
}

#[test]
fn vibrating_resistance_preserves_wheelspin_tiers() {
    let medium = pulse_ab_zone_strength(build_vibrating_resistance(0, 60, 8, false, 2));
    let high = pulse_ab_zone_strength(build_vibrating_resistance(0, 20, 15, false, 2));

    assert!(
        high > medium,
        "expected high rumble tier to produce stronger feedback"
    );
}

#[test]
fn simple_modes() {
    assert_eq!(off(), TriggerMode::Off);
    assert_eq!(rigid(42), TriggerMode::Rigid(42));
    assert_eq!(vibration(10, 20), TriggerMode::Pulse(10, 20));
}

#[test]
fn wall_occupies_last_zones() {
    assert_eq!(build_wall(2), TriggerMode::Feedback(0x300, 0x3F00_0000));
    // The wall size is limited to 1..=9 zones.
    assert_eq!(build_wall(0), build_wall(1));
    assert_eq!(build_wall(200), build_wall(9));
    match build_wall(9) {
        TriggerMode::Feedback(active, strength) => {
            assert_eq!(zone_levels(active, strength), [0, 8, 8, 8, 8, 8, 8, 8, 8, 8]);
        }
        other => panic!("expected Feedback, got {:?}", other),
    }
}

#[test]
fn brake_walls_start_at_static_position() {
    // 128 * 10 / 256 = 5: zones 5.. at strength of 255 (8), the last two form the wall.
    match build_brake_walls(128, 255, 2) {
        TriggerMode::Feedback(active, strength) => {
            assert_eq!(zone_levels(active, strength), [0, 0, 0, 0, 0, 8, 8, 8, 8, 8]);
        }
        other => panic!("expected Feedback, got {:?}", other),
    }
    // Force 64 gives strength 3; a static point of 255 starts at the last zone.
    match build_brake_walls(255, 64, 1) {
        TriggerMode::Feedback(active, strength) => {
            assert_eq!(zone_levels(active, strength), [0, 0, 0, 0, 0, 0, 0, 0, 0, 8]);
        }
        other => panic!("expected Feedback, got {:?}", other),
    }
    match build_brake_walls(0, 64, 1) {
        TriggerMode::Feedback(active, strength) => {
            assert_eq!(zone_levels(active, strength), [3, 3, 3, 3, 3, 3, 3, 3, 3, 8]);
            assert_eq!(active, 0x3FF);
        }
        other => panic!("expected Feedback, got {:?}", other),
    }
}

#[test]
fn vibration_wall_clamps_amplitude() {
    match vibration_wall(0, 30, 2) {
        TriggerMode::PulseAB(active, strength, freq) => {
            assert_eq!(freq, 30);
            assert_eq!(zone_levels(active, strength), [1, 1, 1, 1, 1, 1, 1, 1, 8, 8]);
            assert_eq!(strength, 0x3F00_0000);
        }
        other => panic!("expected PulseAB, got {:?}", other),
    }
    assert_eq!(vibration_wall(200, 30, 2), vibration_wall(8, 30, 2));
}

#[test]
fn vibrating_resistance_takes_stronger_and_wall() {
    // Force 100 -> strength 4; amplitude 20 -> (23 / 4) = 5.
    match build_vibrating_resistance(100, 10, 20, true, 3) {
        TriggerMode::PulseAB(active, strength, freq) => {
            assert_eq!(freq, 10);
            assert_eq!(zone_levels(active, strength), [5, 5, 5, 5, 5, 5, 5, 8, 8, 8]);
        }
        other => panic!("expected PulseAB, got {:?}", other),
    }
    // Nothing to feel: no zone is active.
    assert_eq!(build_vibrating_resistance(0, 7, 0, false, 2), TriggerMode::PulseAB(0, 0, 7));
    // A large amplitude saturates at strength 8.
    match build_vibrating_resistance(0, 7, 255, false, 2) {
        TriggerMode::PulseAB(active, strength, _) => {
            assert_eq!(active, 0x3FF);
            assert_eq!(strength, 0x3FFF_FFFF);
        }
        other => panic!("expected PulseAB, got {:?}", other),
    }
}
