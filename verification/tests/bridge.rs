use dsx::bridge::pad_update;
use dsx::dualsense::parse;
use dsx::mapping::{XusbReport, XUSB_A, XUSB_LB};

#[test]
fn bridge_forwards_parsed_and_mapped_report() {
    let r = [0x01u8, 255, 0, 128, 128, 0x28, 0x01, 0x00, 50, 60];
    let expected = XusbReport {
        buttons: XUSB_A | XUSB_LB,
        left_trigger: 50,
        right_trigger: 60,
        thumb_lx: 32767,
        thumb_ly: 32767,
        thumb_rx: 0,
        thumb_ry: 0,
    };
    assert_eq!(pad_update(&r), Some(expected));
    assert_eq!(pad_update(&r), parse(&r).map(|s| dsx::mapping::map(&s)));
}

#[test]
fn bridge_sends_nothing_for_unknown_reports() {
    assert_eq!(pad_update(&[]), None);
    assert_eq!(pad_update(&[0x05, 1, 2, 3]), None);
}
