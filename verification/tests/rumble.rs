use dsx::rumble::{usb_report, USB_REPORT_LEN};

#[test]
fn report_shape() {
    let r = usb_report(200, 50);
    assert_eq!(r[0], 0x02);
    assert_eq!(r[1], 0x03);
    assert_eq!(r[2], 0);
    assert_eq!(r[3], 50);
    assert_eq!(r[4], 200);
    assert!(r[5..].iter().all(|&b| b == 0));
}

#[test]
fn zero_motors_stop_rumble() {
    let r = usb_report(0, 0);
    assert_eq!((r[3], r[4]), (0, 0));
    assert_eq!(r[1], 0x03); // flags stay set so the stop is applied
}

#[test]
fn report_length_and_full_strength() {
    let r = usb_report(255, 255);
    assert_eq!(USB_REPORT_LEN, 48);
    assert_eq!(r.len(), 48);
    assert_eq!(&r[..5], &[0x02, 0x03, 0x00, 0xFF, 0xFF]);
    assert!(r[5..].iter().all(|&b| b == 0));
}
