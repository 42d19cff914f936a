use forza_dualsense_core::controller::{
    build_report, connect_step, is_dualsense_interface, layout_for_path, seal_bluetooth_report,
    ConnectStep, ReportLayout, TriggerMode,
};

#[test]
fn usb_report_layout() {
    let left = TriggerMode::Rigid(77);
    let right = TriggerMode::Pulse(10, 20);
    let report = build_report(ReportLayout::Usb, &left, &right);
    assert_eq!(report.len(), 64);
    assert_eq!(report[0], 0x02);
    assert_eq!(report[1], 0x0C);
    assert_eq!(&report[11..22], &[0x06, 10, 20, 0, 0, 0, 0, 0, 0, 0, 0]);
    assert_eq!(&report[22..33], &[0x01, 0, 77, 0, 0, 0, 0, 0, 0, 0, 0]);
    assert!(report[2..11].iter().all(|&b| b == 0));
    assert!(report[33..].iter().all(|&b| b == 0));
}

#[test]
fn zoned_modes_are_little_endian() {
    let left = TriggerMode::Feedback(0x0300, 0x3F00_0001);
    let right = TriggerMode::PulseAB(0x01FF, 0x1234_5678, 60);
    let report = build_report(ReportLayout::Usb, &left, &right);
    assert_eq!(&report[11..22], &[0x26, 0xFF, 0x01, 0x78, 0x56, 0x34, 0x12, 60, 0, 0, 0]);
    assert_eq!(&report[22..33], &[0x21, 0x00, 0x03, 0x01, 0x00, 0x00, 0x3F, 0, 0, 0, 0]);
    let off = build_report(ReportLayout::Usb, &TriggerMode::Off, &TriggerMode::Off);
    assert_eq!(&off[11..22], &[0x05, 0, 0, 0, 0, 0, 0, 0, 0, 0, 0]);
    assert_eq!(&off[22..33], &[0x05, 0, 0, 0, 0, 0, 0, 0, 0, 0, 0]);
}

#[test]
fn bluetooth_report_is_checksummed() {
    let left = TriggerMode::Rigid(5);
    let right = TriggerMode::Feedback(0x300, 0x3F00_0000);
    let report = build_report(ReportLayout::Bluetooth, &left, &right);
    assert_eq!(report.len(), 78);
    assert_eq!(report[0], 0x31);
    assert_eq!(report[1], 0x02);
    assert_eq!(report[2], 0x0C);
    assert_eq!(report[12], 0x21);
    assert_eq!(report[23], 0x01);
    assert_eq!(report[25], 5);
    let crc = crc32fast::hash(&report[..74]);
    assert_eq!(&report[74..78], &crc.to_le_bytes());
    assert_ne!(&report[74..78], &[0, 0, 0, 0]);
}

#[test]
fn seal_writes_checksum_little_endian() {
    let mut report = vec![7u8; 78];
    seal_bluetooth_report(&mut report, 0xCBF4_3926);
    assert!(report[..74].iter().all(|&b| b == 7));
    assert_eq!(&report[74..], &[0x26, 0x39, 0xF4, 0xCB]);
}

#[test]
fn dualsense_interfaces_are_recognised() {
    assert!(is_dualsense_interface(0x054C, 0x0CE6, 1, 5));
    assert!(is_dualsense_interface(0x054C, 0x0DF2, 1, 5));
    assert!(!is_dualsense_interface(0x054C, 0x09CC, 1, 5));
    assert!(!is_dualsense_interface(0x045E, 0x0CE6, 1, 5));
    assert!(!is_dualsense_interface(0x054C, 0x0CE6, 0xFF00, 5));
    assert!(!is_dualsense_interface(0x054C, 0x0CE6, 1, 4));
}

#[test]
fn bluetooth_paths_select_bluetooth_layout() {
    let bt = "\\\\?\\HID#{00001124-0000-1000-8000-00805F9B34FB}_VID&0002054C_PID&0CE6#BTHENUM";
    assert_eq!(layout_for_path(bt.as_bytes()), ReportLayout::Bluetooth);
    assert_eq!(layout_for_path(b"/DEV/BLUETOOTH/HIDRAW3"), ReportLayout::Bluetooth);
    assert_eq!(layout_for_path(b"/DEV/HIDRAW3"), ReportLayout::Usb);
    assert_eq!(layout_for_path(b"BLUETOOT"), ReportLayout::Usb);
    assert_eq!(layout_for_path(b""), ReportLayout::Usb);
}

#[test]
fn reconnect_attempts_are_rate_limited() {
    assert_eq!(connect_step(true, Some(0), 2_000_000_000), ConnectStep::Connected);
    assert_eq!(connect_step(false, None, 2_000_000_000), ConnectStep::Attempt);
    assert_eq!(connect_step(false, Some(1_999_999_999), 2_000_000_000), ConnectStep::Wait);
    assert_eq!(connect_step(false, Some(2_000_000_000), 2_000_000_000), ConnectStep::Attempt);
}
