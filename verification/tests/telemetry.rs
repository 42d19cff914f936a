use forza_dualsense_core::telemetry::{base_telemetry, decode_packet, Wheels, PACKET_SIZE};

#[test]
fn base_telemetry_is_running_and_otherwise_zero() {
    let t = base_telemetry();
    assert_eq!(t.len(), 324);
    assert_eq!(&t[0..4], &1i32.to_le_bytes());
    assert!(t[4..].iter().all(|&b| b == 0));
    let p = decode_packet(&t).unwrap();
    assert_eq!(p.is_running, 1);
    assert_eq!(p.gear, 0);
    assert_eq!(p.speed_bits, 0);
}

#[test]
fn wrong_sized_datagrams_are_dropped() {
    assert!(decode_packet(&[]).is_none());
    assert!(decode_packet(&[0u8; 323]).is_none());
    assert!(decode_packet(&[0u8; 325]).is_none());
    assert!(decode_packet(&[0u8; PACKET_SIZE]).is_some());
}

#[test]
fn fields_are_read_at_their_offsets() {
    let mut t = base_telemetry();
    t[315] = 255; // accel
    t[316] = 128; // brake
    t[318] = 7; // handbrake
    t[319] = 3; // gear
    t[256..260].copy_from_slice(&10.0f32.to_le_bytes()); // speed
    t[84..88].copy_from_slice(&1.5f32.to_le_bytes()); // slip fl
    t[88..92].copy_from_slice(&(-1.5f32).to_le_bytes()); // slip fr
    t[8..12].copy_from_slice(&8000.0f32.to_le_bytes()); // max rpm
    t[16..20].copy_from_slice(&7500.0f32.to_le_bytes()); // rpm
    t[224..228].copy_from_slice(&2i32.to_le_bytes()); // drive train
    t[140..144].copy_from_slice(&1.0f32.to_le_bytes()); // puddle rl
    t[156..160].copy_from_slice(&0.5f32.to_le_bytes()); // rumble rl
    t[192..196].copy_from_slice(&0.25f32.to_le_bytes()); // combined slip rr
    t[0..4].copy_from_slice(&(-1i32).to_le_bytes());
    let p = decode_packet(&t).unwrap();
    assert_eq!(p.is_running, -1);
    assert_eq!((p.accel, p.brake, p.handbrake, p.gear), (255, 128, 7, 3));
    assert_eq!(f32::from_bits(p.speed_bits), 10.0);
    assert_eq!(f32::from_bits(p.tire_slip_ratio_bits.fl), 1.5);
    assert_eq!(f32::from_bits(p.tire_slip_ratio_bits.fr), -1.5);
    assert_eq!(p.tire_slip_ratio_bits.rl, 0);
    assert_eq!(f32::from_bits(p.max_rpm_bits), 8000.0);
    assert_eq!(f32::from_bits(p.rpm_bits), 7500.0);
    assert_eq!(p.drive_train, 2);
    assert_eq!(
        p.wheel_in_puddle_depth_bits,
        Wheels { fl: 0, fr: 0, rl: 1.0f32.to_bits(), rr: 0 }
    );
    assert_eq!(f32::from_bits(p.surface_rumble_bits.rl), 0.5);
    assert_eq!(f32::from_bits(p.tire_combined_slip_bits.rr), 0.25);
}
