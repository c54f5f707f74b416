//! DualSense rumble output report (USB).
//!
//! Report ID 0x02, then two "valid flag" bytes, then the high-frequency
//! (right) and low-frequency (left) motor strengths. Flag bits 0 and 1 select
//! classic rumble emulation instead of raw haptics.

use vstd::prelude::*;

verus! {

/// Length in bytes of the USB rumble output report.
pub const USB_REPORT_LEN: usize = 48;

/// The byte at position `i` of the USB output report for motor strengths
/// `large` (strong, low-frequency) and `small` (weak, high-frequency).
pub open spec fn spec_usb_report_byte(large: u8, small: u8, i: int) -> u8 {
    if i == 0 {
        0x02u8  // report ID
    } else if i == 1 {
        0x03u8  // COMPATIBLE_VIBRATION | HAPTICS_SELECT
    } else if i == 3 {
        small  // right / high-frequency motor
    } else if i == 4 {
        large  // left / low-frequency motor
    } else {
        0u8
    }
}

/// The whole USB output report for the given motor pair.
pub open spec fn spec_usb_report(large: u8, small: u8) -> Seq<u8> {
    Seq::new(USB_REPORT_LEN as nat, |i: int| spec_usb_report_byte(large, small, i))
}

/// Build the USB output report for the given Xbox-style motor pair.
/// `large` is the strong low-frequency motor, `small` the weak one.
pub fn usb_report(large: u8, small: u8) -> (r: [u8; USB_REPORT_LEN])
    ensures
        r@ == spec_usb_report(large, small),
        r@[0] == 0x02,
        r@[1] == 0x03,
        r@[3] == small,
        r@[4] == large,
        forall|i: int| 5 <= i < 48 ==> r@[i] == 0,
        r@[2] == 0,
{
    let mut r = [0u8; USB_REPORT_LEN];
    r[0] = 0x02;
    r[1] = 0x03;
    r[3] = small;
    r[4] = large;
    assert(r@ =~= spec_usb_report(large, small));
    r
}

/// The rumble report always has 48 bytes: report ID 0x02, the flags 0x03
/// that select classic rumble (set even when both motors are off, so that a
/// stop is applied), the weak high-frequency motor in byte 3 and the strong
/// low-frequency motor in byte 4, and zeros everywhere else. Each motor byte
/// is exactly the strength asked for it, whatever the other motor asks.
pub proof fn lemma_usb_report_layout(large: u8, small: u8)
    ensures
        spec_usb_report(large, small).len() == 48,
        spec_usb_report(large, small)[0] == 0x02,
        spec_usb_report(large, small)[1] == 0x03,
        spec_usb_report(large, small)[2] == 0,
        spec_usb_report(large, small)[3] == small,
        spec_usb_report(large, small)[4] == large,
        forall|i: int| 5 <= i < 48 ==> spec_usb_report(large, small)[i] == 0,
{
}

/// Changing one motor's strength changes only that motor's byte.
pub proof fn lemma_usb_report_motors_independent(large1: u8, small1: u8, large2: u8, small2: u8)
    ensures
        forall|i: int|
            0 <= i < 48 && i != 3 && i != 4 ==> spec_usb_report(large1, small1)[i]
                == spec_usb_report(large2, small2)[i],
        (spec_usb_report(large1, small1)[3] == spec_usb_report(large2, small2)[3]) == (small1
            == small2),
        (spec_usb_report(large1, small1)[4] == spec_usb_report(large2, small2)[4]) == (large1
            == large2),
{
}

} // verus!
