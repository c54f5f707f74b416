use dsx::dualsense::{is_dualsense, parse, DsState, DUALSENSE_PIDS, SONY_VID};

/// Build a 64-byte USB report with the given data bytes after the ID.
fn usb_input_report(data: &[u8]) -> Vec<u8> {
    let mut r = vec![0u8; 64];
    r[0] = 0x01;
    r[1..1 + data.len()].copy_from_slice(data);
    r
}

#[test]
fn usb_neutral() {
    let r = usb_input_report(&[128, 128, 128, 128, 0, 0, 0, 0x08, 0, 0]);
    let s = parse(&r).unwrap();
    assert_eq!(s, DsState { lx: 128, ly: 128, rx: 128, ry: 128, ..DsState::default() });
}

#[test]
fn usb_sticks_and_triggers() {
    let r = usb_input_report(&[0, 255, 10, 200, 0x40, 0xFF, 0, 0x08, 0, 0]);
    let s = parse(&r).unwrap();
    assert_eq!((s.lx, s.ly, s.rx, s.ry), (0, 255, 10, 200));
    assert_eq!((s.l2, s.r2), (0x40, 0xFF));
}

#[test]
fn usb_face_buttons() {
    let r = usb_input_report(&[128, 128, 128, 128, 0, 0, 0, 0xF8, 0, 0]);
    let s = parse(&r).unwrap();
    assert!(s.square && s.cross && s.circle && s.triangle);
    assert!(!s.dpad_up && !s.dpad_down && !s.dpad_left && !s.dpad_right);
}

#[test]
fn usb_dpad_diagonal() {
    // Hat value 1 = north-east.
    let r = usb_input_report(&[128, 128, 128, 128, 0, 0, 0, 0x01, 0, 0]);
    let s = parse(&r).unwrap();
    assert!(s.dpad_up && s.dpad_right && !s.dpad_down && !s.dpad_left);
}

#[test]
fn usb_shoulder_and_system_buttons() {
    let r = usb_input_report(&[128, 128, 128, 128, 0, 0, 0, 0x08, 0xF3, 0x01]);
    let s = parse(&r).unwrap();
    assert!(s.l1 && s.r1 && s.create && s.options && s.l3 && s.r3 && s.ps);
}

#[test]
fn bt_compact() {
    let r = [0x01u8, 128, 128, 128, 128, 0x28, 0x01, 0x00, 50, 60];
    let s = parse(&r).unwrap();
    assert!(s.cross && s.l1);
    assert_eq!((s.l2, s.r2), (50, 60));
}

#[test]
fn bt_extended() {
    let mut r = vec![0u8; 78];
    r[0] = 0x31;
    r[2..12].copy_from_slice(&[128, 128, 128, 128, 0, 0, 0, 0x08, 0x02, 0x01]);
    let s = parse(&r).unwrap();
    assert!(s.r1 && s.ps);
}

#[test]
fn unknown_report_rejected() {
    assert_eq!(parse(&[0x05, 1, 2, 3]), None);
    assert_eq!(parse(&[]), None);
    assert_eq!(parse(&[0x01, 1, 2]), None);
}

// Each hat value presses the directions of its compass point; 8 is released.
#[test]
fn hat_compass_points() {
    // (hat, up, right, down, left)
    let table = [
        (0u8, true, false, false, false),
        (1, true, true, false, false),
        (2, false, true, false, false),
        (3, false, true, true, false),
        (4, false, false, true, false),
        (5, false, false, true, true),
        (6, false, false, false, true),
        (7, true, false, false, true),
        (8, false, false, false, false),
        (15, false, false, false, false),
    ];
    for (hat, up, right, down, left) in table {
        let r = usb_input_report(&[128, 128, 128, 128, 0, 0, 0, hat, 0, 0]);
        let s = parse(&r).unwrap();
        assert_eq!((s.dpad_up, s.dpad_right, s.dpad_down, s.dpad_left), (up, right, down, left), "hat {hat}");
    }
}

// No byte value makes the d-pad press two opposite directions.
#[test]
fn dpad_never_opposed() {
    for b0 in 0..=255u8 {
        let r = usb_input_report(&[128, 128, 128, 128, 0, 0, 0, b0, 0, 0]);
        let s = parse(&r).unwrap();
        assert!(!(s.dpad_up && s.dpad_down) && !(s.dpad_left && s.dpad_right));
    }
}

// The high nibble of the hat byte carries the face buttons, one bit each.
#[test]
fn face_button_bits_one_at_a_time() {
    let r = usb_input_report(&[128, 128, 128, 128, 0, 0, 0, 0x18, 0, 0]);
    let s = parse(&r).unwrap();
    assert!(s.square && !s.cross && !s.circle && !s.triangle);
    let r = usb_input_report(&[128, 128, 128, 128, 0, 0, 0, 0x48, 0, 0]);
    let s = parse(&r).unwrap();
    assert!(!s.square && !s.cross && s.circle && !s.triangle);
    let r = usb_input_report(&[128, 128, 128, 128, 0, 0, 0, 0x88, 0, 0]);
    let s = parse(&r).unwrap();
    assert!(!s.square && !s.cross && !s.circle && s.triangle);
}

// Bits 2 and 3 of the second button byte (touchpad click, mute area) are not
// forwarded, and neither are the high bits of the third.
#[test]
fn unforwarded_bits_ignored() {
    let r = usb_input_report(&[128, 128, 128, 128, 0, 0, 0, 0x08, 0x0C, 0xFE]);
    let s = parse(&r).unwrap();
    assert_eq!(s, DsState { lx: 128, ly: 128, rx: 128, ry: 128, ..DsState::default() });
}

// The sequence byte of the full layout is not part of the state.
#[test]
fn sequence_byte_ignored() {
    let a = usb_input_report(&[1, 2, 3, 4, 5, 6, 0, 0x08, 0, 0]);
    let b = usb_input_report(&[1, 2, 3, 4, 5, 6, 0xAB, 0x08, 0, 0]);
    assert_eq!(parse(&a), parse(&b));
}

// Bytes after the full layout do not change the parse.
#[test]
fn trailing_bytes_ignored() {
    let mut r = usb_input_report(&[9, 8, 7, 6, 5, 4, 3, 0x21, 0x03, 0x01]);
    let short = parse(&r[..11]);
    for b in r.iter_mut().skip(11) {
        *b = 0xFF;
    }
    assert_eq!(parse(&r), short);
    assert!(short.is_some());

    let mut e = vec![0u8; 12];
    e[0] = 0x31;
    e[2..12].copy_from_slice(&[9, 8, 7, 6, 5, 4, 3, 0x21, 0x03, 0x01]);
    let mut long = e.clone();
    long.extend_from_slice(&[0xFF; 66]);
    assert_eq!(parse(&long), parse(&e));
    assert_eq!(parse(&e), short);
}

// The boundaries of each layout.
#[test]
fn layout_length_boundaries() {
    // ID 0x01 with 9 bytes: too short for the compact layout.
    assert_eq!(parse(&[0x01, 1, 2, 3, 4, 5, 6, 7, 8]), None);
    // ID 0x01 with exactly 10 bytes: compact layout.
    let s = parse(&[0x01, 1, 2, 3, 4, 0x08, 0, 0, 7, 8]).unwrap();
    assert_eq!((s.lx, s.ly, s.rx, s.ry, s.l2, s.r2), (1, 2, 3, 4, 7, 8));
    // ID 0x01 with 11 bytes: full layout.
    let s = parse(&[0x01, 1, 2, 3, 4, 5, 6, 0, 0x08, 0, 0]).unwrap();
    assert_eq!((s.lx, s.ly, s.rx, s.ry, s.l2, s.r2), (1, 2, 3, 4, 5, 6));
    // ID 0x31 with 11 bytes: too short for the extended layout.
    assert_eq!(parse(&[0x31, 0, 1, 2, 3, 4, 5, 6, 0, 0x08, 0]), None);
    // ID 0x02 is not an input report.
    assert_eq!(parse(&[0x02, 0, 0, 0, 0, 0, 0, 0, 0, 0, 0, 0]), None);
}

#[test]
fn default_state_is_all_released() {
    let s = DsState::default();
    assert_eq!((s.lx, s.ly, s.rx, s.ry, s.l2, s.r2), (0, 0, 0, 0, 0, 0));
    assert!(!(s.dpad_up || s.dpad_down || s.dpad_left || s.dpad_right));
    assert!(!(s.square || s.cross || s.circle || s.triangle));
    assert!(!(s.l1 || s.r1 || s.l3 || s.r3 || s.create || s.options || s.ps));
}

#[test]
fn dualsense_ids() {
    assert_eq!(SONY_VID, 0x054C);
    assert_eq!(DUALSENSE_PIDS, [0x0CE6, 0x0DF2]);
    assert!(is_dualsense(0x054C, 0x0CE6));
    assert!(is_dualsense(0x054C, 0x0DF2));
    assert!(!is_dualsense(0x054C, 0x05C4));
    assert!(!is_dualsense(0x045E, 0x0CE6));
}

// In the compact layout too, touchpad and mute bits are not part of the state.
#[test]
fn compact_unbridged_bits_ignored() {
    let a = [0x01u8, 10, 20, 30, 40, 0x23, 0x33, 0x01, 50, 60];
    let b = [0x01u8, 10, 20, 30, 40, 0x23, 0x3F, 0xFF, 50, 60];
    assert_eq!(parse(&a), parse(&b));
    let s = parse(&a).unwrap();
    assert!(s.dpad_down && s.dpad_right && s.cross && s.l1 && s.r1 && s.create && s.options && s.ps);
}
