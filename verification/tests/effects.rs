use forza_dualsense_core::controller::{build_report, ReportLayout, TriggerMode};
use forza_dualsense_core::effects::{
    any_driven_wheel, classify_surface, ControllerLogic, EffectSettings, Surface,
    TelemetryFrame, WheelFlags,
};
use forza_dualsense_core::logic::loop_modes;
use forza_dualsense_core::trigger_builders::{
    build_brake_walls, build_wall, vibration, vibration_wall,
};

const MS: u64 = 1_000_000;

/// A running race, nothing pressed, nothing happening. The forces are what the default
/// curves give for released pedals (brake baseline 20, throttle baseline 0).
fn base_frame() -> TelemetryFrame {
    TelemetryFrame {
        is_running: 1,
        gear: 0,
        accel: 0,
        brake: 0,
        handbrake: 0,
        drive_train: 0,
        brake_force: 20,
        throttle_force: 0,
        abs_speed: false,
        abs_slip: NONE,
        abs_combined_slip: NONE,
        over_rev: false,
        wheelspin_speed: false,
        wheelspin_slip: NONE,
        in_puddle: NONE,
        heavy_rumble: NONE,
        light_rumble: NONE,
    }
}

const NONE: WheelFlags = WheelFlags { fl: false, fr: false, rl: false, rr: false };
const FRONT: WheelFlags = WheelFlags { fl: true, fr: true, rl: false, rr: false };
const REAR_LEFT: WheelFlags = WheelFlags { fl: false, fr: false, rl: true, rr: false };

#[test]
fn abs_respects_disabled_brake_resistance() {
    let mut logic = ControllerLogic::new();
    let mut config = EffectSettings::default();
    config.enable_brake_resistance = false;

    // Brake 255 at 10 m/s (36 km/h, above the 15 km/h ABS minimum) with front slip 1.5
    // (above the 1.0 slip threshold).
    let mut telemetry = base_frame();
    telemetry.brake = 255;
    telemetry.brake_force = 80;
    telemetry.abs_speed = true;
    telemetry.abs_slip = FRONT;
    telemetry.wheelspin_speed = true;
    telemetry.wheelspin_slip = FRONT;

    let (left, _) = logic.update(&telemetry, &config, 1_000 * MS);
    assert_eq!(left, vibration(config.abs_freq, config.abs_amp));
}

#[test]
fn rev_limiter_respects_disabled_throttle_resistance() {
    let mut logic = ControllerLogic::new();
    let mut config = EffectSettings::default();
    config.enable_throttle_resistance = false;

    // Throttle 255 at 7500 of 8000 rpm: 0.9375 is above the 0.93 rev-limit ratio.
    let mut telemetry = base_frame();
    telemetry.accel = 255;
    telemetry.throttle_force = 8;
    telemetry.over_rev = true;

    let (_, right) = logic.update(&telemetry, &config, 1_000 * MS);
    assert_eq!(
        right,
        vibration(config.rev_limit_freq, config.rev_limit_amp)
    );
}

#[test]
fn wheelspin_respects_disabled_throttle_resistance() {
    let mut logic = ControllerLogic::new();
    let mut config = EffectSettings::default();
    config.enable_rev_limiter = false;
    config.enable_throttle_resistance = false;

    // Throttle 255, all-wheel drive, 10 m/s, rear-left slip 2.0 (at least 1.2), rear-left
    // rumble 0.2 (between 0.10 and 0.30).
    let mut telemetry = base_frame();
    telemetry.accel = 255;
    telemetry.throttle_force = 8;
    telemetry.drive_train = 2;
    telemetry.wheelspin_speed = true;
    telemetry.abs_slip = REAR_LEFT;
    telemetry.wheelspin_slip = REAR_LEFT;
    telemetry.light_rumble = REAR_LEFT;

    let (_, right) = logic.update(&telemetry, &config, 1_000 * MS);
    assert_eq!(right, vibration(60, 8));
}

#[test]
fn not_running_releases_both_triggers() {
    let mut logic = ControllerLogic::new();
    let config = EffectSettings::default();
    let mut telemetry = base_frame();
    telemetry.is_running = 0;
    telemetry.brake = 255;
    telemetry.accel = 255;
    telemetry.abs_speed = true;
    telemetry.abs_slip = FRONT;
    assert_eq!(logic.update(&telemetry, &config, 0), (TriggerMode::Off, TriggerMode::Off));
    // Nothing was remembered: a running frame right after behaves as a first frame.
    let mut fresh = ControllerLogic::new();
    let frame = base_frame();
    assert_eq!(logic.update(&frame, &config, 10), fresh.update(&frame, &config, 10));
}

#[test]
fn plain_resistance_follows_curves() {
    let mut logic = ControllerLogic::new();
    let config = EffectSettings::default();
    let (left, right) = logic.update(&base_frame(), &config, 0);
    assert_eq!(left, TriggerMode::Rigid(20));
    assert_eq!(right, TriggerMode::Rigid(0));
}

#[test]
fn handbrake_adds_bonus_saturating() {
    let config = EffectSettings::default();
    let mut frame = base_frame();
    frame.brake = 100;
    frame.brake_force = 210;
    frame.handbrake = 255;
    let mut logic = ControllerLogic::new();
    assert_eq!(logic.update(&frame, &config, 0).0, TriggerMode::Rigid(255));
    frame.brake_force = 30;
    let mut logic = ControllerLogic::new();
    assert_eq!(logic.update(&frame, &config, 0).0, TriggerMode::Rigid(90));
    // Without brake resistance the handbrake alone gives its bonus.
    let mut no_resistance = config;
    no_resistance.enable_brake_resistance = false;
    let mut logic = ControllerLogic::new();
    assert_eq!(logic.update(&frame, &no_resistance, 0).0, TriggerMode::Rigid(60));
    frame.handbrake = 0;
    let mut logic = ControllerLogic::new();
    assert_eq!(logic.update(&frame, &no_resistance, 0).0, TriggerMode::Off);
}

#[test]
fn wall_engages_and_releases_with_hysteresis() {
    let config = EffectSettings::default();
    let mut logic = ControllerLogic::new();
    let mut frame = base_frame();
    frame.accel = 230;
    frame.throttle_force = 7;
    assert_eq!(logic.update(&frame, &config, 0).1, TriggerMode::Rigid(7));
    frame.accel = 250;
    assert_eq!(logic.update(&frame, &config, 1).1, build_wall(2));
    frame.accel = 220;
    assert_eq!(logic.update(&frame, &config, 2).1, build_wall(2));
    frame.accel = 199;
    assert_eq!(logic.update(&frame, &config, 3).1, TriggerMode::Rigid(7));
}

#[test]
fn gear_change_kicks_both_pedals() {
    let config = EffectSettings::default();
    let mut logic = ControllerLogic::new();
    let mut frame = base_frame();
    frame.gear = 1;
    frame.accel = 255;
    frame.throttle_force = 8;
    // The first gear seen starts no kick.
    let (_, right) = logic.update(&frame, &config, 0);
    assert_eq!(right, build_wall(2));
    frame.gear = 2;
    let (left, right) = logic.update(&frame, &config, 10 * MS);
    // Brake released: plain vibration; throttle past (250 + 255) / 2: vibrating wall.
    assert_eq!(left, vibration(20, 255));
    assert_eq!(right, vibration_wall(8, 20, 2));
    // Still inside the 100 ms kick.
    let (left, _) = logic.update(&frame, &config, 109 * MS);
    assert_eq!(left, vibration(20, 255));
    // The kick is over.
    let (left, right) = logic.update(&frame, &config, 110 * MS);
    assert_eq!(left, TriggerMode::Rigid(20));
    assert_eq!(right, build_wall(2));
}

#[test]
fn abs_pulse_holds_for_80_ms() {
    let config = EffectSettings::default();
    let mut logic = ControllerLogic::new();
    let mut frame = base_frame();
    frame.brake = 200;
    frame.brake_force = 60;
    frame.abs_speed = true;
    frame.abs_slip = FRONT;
    let (left, _) = logic.update(&frame, &config, 0);
    assert!(matches!(left, TriggerMode::PulseAB(_, _, 10)));
    frame.abs_slip = NONE;
    let (left, _) = logic.update(&frame, &config, 79 * MS);
    assert!(matches!(left, TriggerMode::PulseAB(_, _, 10)));
    let (left, _) = logic.update(&frame, &config, 80 * MS);
    assert_eq!(left, TriggerMode::Rigid(60));
}

#[test]
fn surface_shapes_wheelspin() {
    let mut config = EffectSettings::default();
    config.enable_rev_limiter = false;
    config.enable_throttle_resistance = false;
    let mut frame = base_frame();
    frame.accel = 255;
    frame.wheelspin_speed = true;
    frame.wheelspin_slip = FRONT;
    for (puddle, heavy, light, expected) in [
        (FRONT, NONE, NONE, vibration(100, 1)),
        (FRONT, FRONT, FRONT, vibration(100, 1)),
        (NONE, FRONT, FRONT, vibration(20, 15)),
        (NONE, NONE, FRONT, vibration(60, 8)),
        (NONE, NONE, NONE, vibration(100, 3)),
        // Rumble under an undriven wheel does not count.
        (NONE, REAR_LEFT, REAR_LEFT, vibration(100, 3)),
    ] {
        frame.in_puddle = puddle;
        frame.heavy_rumble = heavy;
        frame.light_rumble = light;
        let mut logic = ControllerLogic::new();
        assert_eq!(logic.update(&frame, &config, 0).1, expected);
    }
}

#[test]
fn loop_without_packet_releases_triggers() {
    let config = EffectSettings::default();
    let mut logic = ControllerLogic::new();
    assert_eq!(loop_modes(&mut logic, None, &config, 0), (TriggerMode::Off, TriggerMode::Off));
    let frame = base_frame();
    assert_eq!(
        loop_modes(&mut logic, Some(&frame), &config, 0),
        (TriggerMode::Rigid(20), TriggerMode::Rigid(0))
    );
}

fn modes_in_usb_report(frame: &TelemetryFrame) -> (u8, u8) {
    let config = EffectSettings::default();
    let mut logic = ControllerLogic::new();
    let (left, right) = logic.update(frame, &config, 1_000 * MS);
    let report = build_report(ReportLayout::Usb, &left, &right);
    (report[22], report[11])
}

#[test]
fn scenario_acceleration_report() {
    // Full throttle: the throttle sits in its wall, the released brake keeps its baseline.
    let mut frame = base_frame();
    frame.accel = 255;
    frame.throttle_force = 8;
    assert_eq!(modes_in_usb_report(&frame), (0x01, 0x21));
}

#[test]
fn scenario_abs_brake_report() {
    let mut frame = base_frame();
    frame.brake = 255;
    frame.brake_force = 80;
    frame.abs_speed = true;
    frame.abs_slip = FRONT;
    frame.wheelspin_speed = true;
    frame.wheelspin_slip = FRONT;
    assert_eq!(modes_in_usb_report(&frame), (0x26, 0x01));
}

#[test]
fn scenario_engine_rpm_report() {
    let mut frame = base_frame();
    frame.accel = 255;
    frame.throttle_force = 8;
    frame.over_rev = true;
    assert_eq!(modes_in_usb_report(&frame), (0x01, 0x26));
}

#[test]
fn scenario_wheelspin_report() {
    // All-wheel drive, 10 m/s, rear-left slip 2.0 in a puddle.
    let mut frame = base_frame();
    frame.accel = 255;
    frame.throttle_force = 8;
    frame.drive_train = 2;
    frame.wheelspin_speed = true;
    frame.abs_slip = REAR_LEFT;
    frame.wheelspin_slip = REAR_LEFT;
    frame.in_puddle = REAR_LEFT;
    assert_eq!(modes_in_usb_report(&frame), (0x01, 0x26));
}

#[test]
fn static_brake_wall_replaces_curve() {
    let mut config = EffectSettings::default();
    config.enable_brake_static_wall = true;
    let mut logic = ControllerLogic::new();
    let mut frame = base_frame();
    frame.brake = 100;
    frame.brake_force = 40;
    assert_eq!(logic.update(&frame, &config, 0).0, build_brake_walls(128, 255, 2));
    // Inside the wall the end wall alone is felt.
    frame.brake = 255;
    assert_eq!(logic.update(&frame, &config, 1).0, build_wall(2));
}

#[test]
fn driven_wheels_follow_drive_train() {
    assert!(any_driven_wheel(0, &FRONT));
    assert!(!any_driven_wheel(0, &REAR_LEFT));
    assert!(any_driven_wheel(1, &REAR_LEFT));
    assert!(!any_driven_wheel(1, &FRONT));
    assert!(any_driven_wheel(2, &REAR_LEFT));
    assert!(any_driven_wheel(-7, &FRONT));
    assert!(!any_driven_wheel(2, &NONE));
}

#[test]
fn surface_priority_is_water_then_rumble() {
    let mut frame = base_frame();
    frame.drive_train = 1;
    assert_eq!(classify_surface(&frame), Surface::Smooth);
    frame.light_rumble = REAR_LEFT;
    assert_eq!(classify_surface(&frame), Surface::Bumpy);
    frame.heavy_rumble = REAR_LEFT;
    assert_eq!(classify_surface(&frame), Surface::Rough);
    frame.in_puddle = REAR_LEFT;
    assert_eq!(classify_surface(&frame), Surface::Puddle);
    frame.drive_train = 0;
    assert_eq!(classify_surface(&frame), Surface::Smooth);
}
