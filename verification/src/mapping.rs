//! Mapping from DualSense state to an XUSB (Xbox 360) report.
//!
//! Free of any driver types: the button constants below are the wire values
//! of the XUSB protocol.

use vstd::prelude::*;
use crate::dualsense::DsState;
use crate::dualsense::spec_zero_state;
use crate::bits::bit;
use crate::bits::lemma_u16_masks;

verus! {

pub const XUSB_DPAD_UP: u16 = 0x0001;
pub const XUSB_DPAD_DOWN: u16 = 0x0002;
pub const XUSB_DPAD_LEFT: u16 = 0x0004;
pub const XUSB_DPAD_RIGHT: u16 = 0x0008;
pub const XUSB_START: u16 = 0x0010;
pub const XUSB_BACK: u16 = 0x0020;
pub const XUSB_LTHUMB: u16 = 0x0040;
pub const XUSB_RTHUMB: u16 = 0x0080;
pub const XUSB_LB: u16 = 0x0100;
pub const XUSB_RB: u16 = 0x0200;
pub const XUSB_GUIDE: u16 = 0x0400;
pub const XUSB_A: u16 = 0x1000;
pub const XUSB_B: u16 = 0x2000;
pub const XUSB_X: u16 = 0x4000;
pub const XUSB_Y: u16 = 0x8000;

#[derive(Debug, Clone, Copy, PartialEq, Eq, Structural)]
pub struct XusbReport {
    pub buttons: u16,
    pub left_trigger: u8,
    pub right_trigger: u8,
    pub thumb_lx: i16,
    pub thumb_ly: i16,
    pub thumb_rx: i16,
    pub thumb_ry: i16,
}

/// The report with no button pressed, triggers released and sticks centered.
pub open spec fn spec_zero_report() -> XusbReport {
    XusbReport {
        buttons: 0,
        left_trigger: 0,
        right_trigger: 0,
        thumb_lx: 0,
        thumb_ly: 0,
        thumb_rx: 0,
        thumb_ry: 0,
    }
}

impl Default for XusbReport {
    fn default() -> (r: Self)
        ensures
            r == spec_zero_report(),
    {
        XusbReport {
            buttons: 0,
            left_trigger: 0,
            right_trigger: 0,
            thumb_lx: 0,
            thumb_ly: 0,
            thumb_rx: 0,
            thumb_ry: 0,
        }
    }
}

/// Integer division rounding toward zero, as Rust's `/` on signed integers
/// does (`d > 0`).
pub open spec fn trunc_div(a: int, d: int) -> int {
    if a >= 0 {
        a / d
    } else {
        -((-a) / d)
    }
}

/// `x` limited to the range of `i16`.
pub open spec fn clamp_i16(x: int) -> int {
    if x < -32768 {
        -32768
    } else if x > 32767 {
        32767
    } else {
        x
    }
}

/// A raw stick byte (0..=255, 128 centered) widened to the XUSB range:
/// `(v - 128) * 32767 / 127`, rounded toward zero, limited to `i16`.
#[verifier::opaque]
pub open spec fn spec_axis(v: u8) -> int {
    clamp_i16(trunc_div((v - 128) * 32767, 127))
}

/// Same, but flipped: `(128 - v) * 32767 / 127`, for DualSense Y grows
/// downward and XUSB Y grows upward.
#[verifier::opaque]
pub open spec fn spec_axis_inverted(v: u8) -> int {
    clamp_i16(trunc_div((128 - v) * 32767, 127))
}

/// `x` limited to the range of `i16`.
fn clamp_to_i16(x: i32) -> (r: i16)
    ensures
        r == clamp_i16(x as int),
{
    if x < -32768 {
        -32768
    } else if x > 32767 {
        32767
    } else {
        x as i16
    }
}

/// Widen a raw stick byte (0..=255, 128 centered) to the XUSB i16 range.
fn axis(v: u8) -> (r: i16)
    ensures
        r == spec_axis(v),
{
    reveal(spec_axis);
    reveal(spec_axis_inverted);
    clamp_to_i16((v as i32 - 128) * 32767 / 127)
}

/// Same, but flipped: DualSense Y grows downward, XUSB Y grows upward.
fn axis_inverted(v: u8) -> (r: i16)
    ensures
        r == spec_axis_inverted(v),
{
    reveal(spec_axis);
    reveal(spec_axis_inverted);
    clamp_to_i16((128 - v as i32) * 32767 / 127)
}

/// `mask` when `on`, else no bit.
pub open spec fn spec_flag(on: bool, mask: u16) -> u16 {
    if on {
        mask
    } else {
        0u16
    }
}

/// The XUSB button word for a DualSense state, as the sum of the masks of
/// the pressed buttons: d-pad to d-pad, cross/circle/square/triangle to
/// A/B/X/Y, L1/R1 to LB/RB, L3/R3 to the thumb buttons, create to back,
/// options to start and PS to guide.
pub open spec fn spec_buttons(s: DsState) -> int {
    spec_flag(s.dpad_up, XUSB_DPAD_UP) as int
        + spec_flag(s.dpad_down, XUSB_DPAD_DOWN) as int
        + spec_flag(s.dpad_left, XUSB_DPAD_LEFT) as int
        + spec_flag(s.dpad_right, XUSB_DPAD_RIGHT) as int
        + spec_flag(s.cross, XUSB_A) as int
        + spec_flag(s.circle, XUSB_B) as int
        + spec_flag(s.square, XUSB_X) as int
        + spec_flag(s.triangle, XUSB_Y) as int
        + spec_flag(s.l1, XUSB_LB) as int
        + spec_flag(s.r1, XUSB_RB) as int
        + spec_flag(s.l3, XUSB_LTHUMB) as int
        + spec_flag(s.r3, XUSB_RTHUMB) as int
        + spec_flag(s.create, XUSB_BACK) as int
        + spec_flag(s.options, XUSB_START) as int
        + spec_flag(s.ps, XUSB_GUIDE) as int
}

/// The XUSB report for a DualSense state: the button word above, triggers
/// passed through, X axes widened and Y axes widened and flipped.
pub open spec fn spec_map(s: DsState) -> XusbReport {
    XusbReport {
        buttons: spec_buttons(s) as u16,
        left_trigger: s.l2,
        right_trigger: s.r2,
        thumb_lx: spec_axis(s.lx) as i16,
        thumb_ly: spec_axis_inverted(s.ly) as i16,
        thumb_rx: spec_axis(s.rx) as i16,
        thumb_ry: spec_axis_inverted(s.ry) as i16,
    }
}

/// The masks of the fifteen buttons are distinct single bits, so their
/// bitwise or is their sum; bit 11 stays clear.
proof fn lemma_or_of_flags(
    up: bool, down: bool, left: bool, right: bool, a: bool, b: bool, x: bool, y: bool,
    lb: bool, rb: bool, lthumb: bool, rthumb: bool, back: bool, start: bool, guide: bool,
)
    by (bit_vector)
    ensures
        (spec_flag(up, 0x0001u16) | spec_flag(down, 0x0002u16) | spec_flag(left, 0x0004u16)
            | spec_flag(right, 0x0008u16) | spec_flag(a, 0x1000u16) | spec_flag(b, 0x2000u16)
            | spec_flag(x, 0x4000u16) | spec_flag(y, 0x8000u16) | spec_flag(lb, 0x0100u16)
            | spec_flag(rb, 0x0200u16) | spec_flag(lthumb, 0x0040u16) | spec_flag(rthumb, 0x0080u16)
            | spec_flag(back, 0x0020u16) | spec_flag(start, 0x0010u16) | spec_flag(guide, 0x0400u16))
            as int == spec_flag(up, 0x0001u16) + spec_flag(down, 0x0002u16) + spec_flag(left, 0x0004u16)
            + spec_flag(right, 0x0008u16) + spec_flag(a, 0x1000u16) + spec_flag(b, 0x2000u16)
            + spec_flag(x, 0x4000u16) + spec_flag(y, 0x8000u16) + spec_flag(lb, 0x0100u16)
            + spec_flag(rb, 0x0200u16) + spec_flag(lthumb, 0x0040u16) + spec_flag(rthumb, 0x0080u16)
            + spec_flag(back, 0x0020u16) + spec_flag(start, 0x0010u16) + spec_flag(guide, 0x0400u16),
{
}

/// In a word that is the sum of distinct one-bit masks, the bit of each mask
/// is set exactly when that mask is in the sum; bit 11 is in none of them.
proof fn lemma_bits_of_flag_sum(
    w: u16,
    up: bool, down: bool, left: bool, right: bool, a: bool, b: bool, x: bool, y: bool,
    lb: bool, rb: bool, lthumb: bool, rthumb: bool, back: bool, start: bool, guide: bool,
)
    by (bit_vector)
    requires
        w as int == spec_flag(up, 0x0001u16) + spec_flag(down, 0x0002u16) + spec_flag(left, 0x0004u16)
            + spec_flag(right, 0x0008u16) + spec_flag(a, 0x1000u16) + spec_flag(b, 0x2000u16)
            + spec_flag(x, 0x4000u16) + spec_flag(y, 0x8000u16) + spec_flag(lb, 0x0100u16)
            + spec_flag(rb, 0x0200u16) + spec_flag(lthumb, 0x0040u16) + spec_flag(rthumb, 0x0080u16)
            + spec_flag(back, 0x0020u16) + spec_flag(start, 0x0010u16) + spec_flag(guide, 0x0400u16),
    ensures
        ((w & 0x0001u16) != 0) == up,
        ((w & 0x0002u16) != 0) == down,
        ((w & 0x0004u16) != 0) == left,
        ((w & 0x0008u16) != 0) == right,
        ((w & 0x0010u16) != 0) == start,
        ((w & 0x0020u16) != 0) == back,
        ((w & 0x0040u16) != 0) == lthumb,
        ((w & 0x0080u16) != 0) == rthumb,
        ((w & 0x0100u16) != 0) == lb,
        ((w & 0x0200u16) != 0) == rb,
        ((w & 0x0400u16) != 0) == guide,
        (w & 0x0800u16) == 0,
        ((w & 0x1000u16) != 0) == a,
        ((w & 0x2000u16) != 0) == b,
        ((w & 0x4000u16) != 0) == x,
        ((w & 0x8000u16) != 0) == y,
{
}

/// `bit` when `on`, else no bit.
fn flag(on: bool, bit: u16) -> (r: u16)
    ensures
        r == spec_flag(on, bit),
{
    if on {
        bit
    } else {
        0
    }
}

pub fn map(s: &DsState) -> (r: XusbReport)
    ensures
        r == spec_map(*s),
{
    let buttons = flag(s.dpad_up, XUSB_DPAD_UP) | flag(s.dpad_down, XUSB_DPAD_DOWN) | flag(
        s.dpad_left,
        XUSB_DPAD_LEFT,
    ) | flag(s.dpad_right, XUSB_DPAD_RIGHT) | flag(s.cross, XUSB_A) | flag(s.circle, XUSB_B) | flag(
        s.square,
        XUSB_X,
    ) | flag(s.triangle, XUSB_Y) | flag(s.l1, XUSB_LB) | flag(s.r1, XUSB_RB) | flag(
        s.l3,
        XUSB_LTHUMB,
    ) | flag(s.r3, XUSB_RTHUMB) | flag(s.create, XUSB_BACK) | flag(s.options, XUSB_START) | flag(
        s.ps,
        XUSB_GUIDE,
    );
    proof {
        lemma_or_of_flags(
            s.dpad_up, s.dpad_down, s.dpad_left, s.dpad_right, s.cross, s.circle, s.square,
            s.triangle, s.l1, s.r1, s.l3, s.r3, s.create, s.options, s.ps,
        );
    }
    XusbReport {
        buttons,
        left_trigger: s.l2,
        right_trigger: s.r2,
        thumb_lx: axis(s.lx),
        thumb_ly: axis_inverted(s.ly),
        thumb_rx: axis(s.rx),
        thumb_ry: axis_inverted(s.ry),
    }
}

/// Each bit of the XUSB button word is set exactly when the DualSense button
/// mapped onto it is pressed; bit 11, which no button maps to, is never set.
#[verifier::rlimit(40)]
pub proof fn lemma_button_bits(s: DsState)
    ensures
        0 <= spec_buttons(s) <= 0xFFFF,
        bit(spec_buttons(s), 0) == s.dpad_up,
        bit(spec_buttons(s), 1) == s.dpad_down,
        bit(spec_buttons(s), 2) == s.dpad_left,
        bit(spec_buttons(s), 3) == s.dpad_right,
        bit(spec_buttons(s), 4) == s.options,
        bit(spec_buttons(s), 5) == s.create,
        bit(spec_buttons(s), 6) == s.l3,
        bit(spec_buttons(s), 7) == s.r3,
        bit(spec_buttons(s), 8) == s.l1,
        bit(spec_buttons(s), 9) == s.r1,
        bit(spec_buttons(s), 10) == s.ps,
        !bit(spec_buttons(s), 11),
        bit(spec_buttons(s), 12) == s.cross,
        bit(spec_buttons(s), 13) == s.circle,
        bit(spec_buttons(s), 14) == s.square,
        bit(spec_buttons(s), 15) == s.triangle,
{
    let w = spec_buttons(s) as u16;
    assert(w as int == spec_buttons(s));
    lemma_bits_of_flag_sum(
        w, s.dpad_up, s.dpad_down, s.dpad_left, s.dpad_right, s.cross, s.circle, s.square,
        s.triangle, s.l1, s.r1, s.l3, s.r3, s.create, s.options, s.ps,
    );
    lemma_bits_of_word(w, s);
}

/// The bits of a word that reads as the given buttons are those buttons.
proof fn lemma_bits_of_word(w: u16, s: DsState)
    requires
        ((w & 0x0001u16) != 0) == s.dpad_up,
        ((w & 0x0002u16) != 0) == s.dpad_down,
        ((w & 0x0004u16) != 0) == s.dpad_left,
        ((w & 0x0008u16) != 0) == s.dpad_right,
        ((w & 0x0010u16) != 0) == s.options,
        ((w & 0x0020u16) != 0) == s.create,
        ((w & 0x0040u16) != 0) == s.l3,
        ((w & 0x0080u16) != 0) == s.r3,
        ((w & 0x0100u16) != 0) == s.l1,
        ((w & 0x0200u16) != 0) == s.r1,
        ((w & 0x0400u16) != 0) == s.ps,
        (w & 0x0800u16) == 0,
        ((w & 0x1000u16) != 0) == s.cross,
        ((w & 0x2000u16) != 0) == s.circle,
        ((w & 0x4000u16) != 0) == s.square,
        ((w & 0x8000u16) != 0) == s.triangle,
    ensures
        bit(w as int, 0) == s.dpad_up,
        bit(w as int, 1) == s.dpad_down,
        bit(w as int, 2) == s.dpad_left,
        bit(w as int, 3) == s.dpad_right,
        bit(w as int, 4) == s.options,
        bit(w as int, 5) == s.create,
        bit(w as int, 6) == s.l3,
        bit(w as int, 7) == s.r3,
        bit(w as int, 8) == s.l1,
        bit(w as int, 9) == s.r1,
        bit(w as int, 10) == s.ps,
        !bit(w as int, 11),
        bit(w as int, 12) == s.cross,
        bit(w as int, 13) == s.circle,
        bit(w as int, 14) == s.square,
        bit(w as int, 15) == s.triangle,
{
    lemma_u16_masks(w);
}

/// What the pad report holds for a DualSense state: each trigger passes
/// through unchanged (left from L2, right from R2), the X axes are the
/// widened stick bytes and the Y axes the widened and flipped ones, each
/// from its own stick.
pub proof fn lemma_map_axes_and_triggers(s: DsState)
    ensures
        spec_map(s).left_trigger == s.l2,
        spec_map(s).right_trigger == s.r2,
        spec_map(s).thumb_lx as int == spec_axis(s.lx),
        spec_map(s).thumb_ly as int == spec_axis_inverted(s.ly),
        spec_map(s).thumb_rx as int == spec_axis(s.rx),
        spec_map(s).thumb_ry as int == spec_axis_inverted(s.ry),
{
    lemma_axis_sign(s.lx);
    lemma_axis_sign(s.ly);
    lemma_axis_sign(s.rx);
    lemma_axis_sign(s.ry);
}

/// The button word fits 16 bits.
proof fn lemma_buttons_range(s: DsState)
    ensures
        0 <= spec_buttons(s) <= 0xF7FF,
{
}

/// Each XUSB button of the pad report is set exactly when the DualSense
/// button mapped onto it is pressed (d-pad to d-pad, cross/circle/square/
/// triangle to A/B/X/Y, L1/R1 to LB/RB, L3/R3 to the thumb buttons, create
/// to back, options to start, PS to guide), and the unused bit 0x0800 is
/// clear.
#[verifier::spinoff_prover]
#[verifier::rlimit(40)]
pub proof fn lemma_map_buttons(s: DsState)
    ensures
        ({
            let w = spec_map(s).buttons;
            &&& ((w & 0x0001u16) != 0) == s.dpad_up
            &&& ((w & 0x0002u16) != 0) == s.dpad_down
            &&& ((w & 0x0004u16) != 0) == s.dpad_left
            &&& ((w & 0x0008u16) != 0) == s.dpad_right
            &&& ((w & 0x0010u16) != 0) == s.options
            &&& ((w & 0x0020u16) != 0) == s.create
            &&& ((w & 0x0040u16) != 0) == s.l3
            &&& ((w & 0x0080u16) != 0) == s.r3
            &&& ((w & 0x0100u16) != 0) == s.l1
            &&& ((w & 0x0200u16) != 0) == s.r1
            &&& ((w & 0x0400u16) != 0) == s.ps
            &&& (w & 0x0800u16) == 0
            &&& ((w & 0x1000u16) != 0) == s.cross
            &&& ((w & 0x2000u16) != 0) == s.circle
            &&& ((w & 0x4000u16) != 0) == s.square
            &&& ((w & 0x8000u16) != 0) == s.triangle
        }),
{
    let w = spec_map(s).buttons;
    lemma_buttons_range(s);
    assert(w as int == spec_buttons(s));
    lemma_bits_of_flag_sum(
        w, s.dpad_up, s.dpad_down, s.dpad_left, s.dpad_right, s.cross, s.circle, s.square,
        s.triangle, s.l1, s.r1, s.l3, s.r3, s.create, s.options, s.ps,
    );
}

/// A controller at rest (sticks centered, triggers released, no button
/// pressed) gives the all-zero pad report: no button, no trigger, every
/// axis at 0.
pub proof fn lemma_rest_maps_to_zero()
    ensures
        spec_map(DsState { lx: 128, ly: 128, rx: 128, ry: 128, ..spec_zero_state() }) == spec_zero_report(),
        spec_zero_report().buttons == 0,
        spec_zero_report().left_trigger == 0 && spec_zero_report().right_trigger == 0,
        spec_zero_report().thumb_lx == 0 && spec_zero_report().thumb_ly == 0,
        spec_zero_report().thumb_rx == 0 && spec_zero_report().thumb_ry == 0,
        !spec_zero_state().dpad_up && !spec_zero_state().dpad_down && !spec_zero_state().dpad_left
            && !spec_zero_state().dpad_right,
        !spec_zero_state().square && !spec_zero_state().cross && !spec_zero_state().circle
            && !spec_zero_state().triangle,
        !spec_zero_state().l1 && !spec_zero_state().r1 && !spec_zero_state().l3
            && !spec_zero_state().r3,
        !spec_zero_state().create && !spec_zero_state().options && !spec_zero_state().ps,
        spec_zero_state().l2 == 0 && spec_zero_state().r2 == 0,
{
    lemma_axis_center_and_extremes();
}

/// A centered stick gives a zero axis, both ways round; the extremes of the
/// stick give the extremes of the range (full left/up gives the minimum X
/// and the maximum Y).
pub proof fn lemma_axis_center_and_extremes()
    ensures
        spec_axis(128) == 0,
        spec_axis_inverted(128) == 0,
        spec_axis(0) == -32768,
        spec_axis(255) == 32767,
        spec_axis_inverted(0) == 32767,
        spec_axis_inverted(1) == 32767,
        spec_axis_inverted(255) == -32767,
{
    reveal(spec_axis);
    reveal(spec_axis_inverted);
}

/// Every axis value fits `i16`, and it has the sign of the stick's
/// displacement from center: positive right (X) or up (flipped Y).
pub proof fn lemma_axis_sign(v: u8)
    ensures
        -32768 <= spec_axis(v) <= 32767,
        -32768 <= spec_axis_inverted(v) <= 32767,
        spec_axis(v) > 0 <==> v > 128,
        spec_axis(v) < 0 <==> v < 128,
        spec_axis_inverted(v) > 0 <==> v < 128,
        spec_axis_inverted(v) < 0 <==> v > 128,
{
    reveal(spec_axis);
    reveal(spec_axis_inverted);
    assert((v - 128) * 32767 >= 32767 <==> v > 128) by (nonlinear_arith);
    assert((v - 128) * 32767 <= -32767 <==> v < 128) by (nonlinear_arith);
}

/// The rounding error of the widening at a displacement `k` from center:
/// since 32767 = 258 * 127 + 1, only the two ends of the range round up
/// to a further unit.
pub open spec fn widen_excess(k: int) -> int {
    if k == 127 {
        1
    } else if k == -127 {
        -1
    } else {
        0
    }
}

/// Closed form of the widening of a displacement within the stick's range.
proof fn lemma_widen_closed_form(k: int)
    requires
        -127 <= k <= 127,
    ensures
        trunc_div(k * 32767, 127) == 258 * k + widen_excess(k),
{
    let m = if k >= 0 { k } else { -k };
    assert(m * 32767 == (258 * m) * 127 + m) by (nonlinear_arith);
    if m < 127 {
        vstd::arithmetic::div_mod::lemma_fundamental_div_mod_converse(m * 32767, 127, 258 * m, m);
    } else {
        vstd::arithmetic::div_mod::lemma_fundamental_div_mod_converse(m * 32767, 127, 32767, 0);
    }
    if k < 0 {
        assert(k * 32767 == -(m * 32767)) by (nonlinear_arith)
            requires
                m == -k,
        ;
    }
}

/// Every stick byte but 0 widens to 258 units per step from center (one more
/// at the two ends), with no limiting; the flipped axis the same way round
/// from the other side. Byte 0 is where the limit to `i16` applies.
pub proof fn lemma_axis_closed_form(v: u8)
    ensures
        v >= 1 ==> spec_axis(v) == 258 * (v - 128) + widen_excess(v - 128),
        v >= 1 ==> spec_axis_inverted(v) == 258 * (128 - v) + widen_excess(128 - v),
        spec_axis(0) == -32768,
        spec_axis_inverted(0) == 32767,
{
    reveal(spec_axis);
    reveal(spec_axis_inverted);
    if v >= 1 {
        lemma_widen_closed_form(v - 128);
        lemma_widen_closed_form(128 - v);
    }
}

/// Moving a stick further along its axis always moves the XUSB axis on:
/// the widening is strictly increasing over all stick bytes, and the flipped
/// one strictly decreasing from byte 1 up (bytes 0 and 1 both flip to
/// 32767, the top of the range).
pub proof fn lemma_axis_strictly_monotone(a: u8, b: u8)
    requires
        a < b,
    ensures
        spec_axis(a) < spec_axis(b),
        spec_axis_inverted(a) >= spec_axis_inverted(b),
        1 <= a ==> spec_axis_inverted(a) > spec_axis_inverted(b),
        spec_axis_inverted(0) == spec_axis_inverted(1),
{
    lemma_axis_closed_form(a);
    lemma_axis_closed_form(b);
    lemma_axis_closed_form(1);
}

/// The widening is symmetric about the center byte 128: mirrored stick bytes
/// give opposite axis values, and the flipped axis of a byte is the axis of
/// its mirror. Byte 0 has no mirror byte (256) and is left out.
pub proof fn lemma_axis_symmetric(v: u8)
    requires
        v >= 1,
    ensures
        spec_axis((256 - v) as u8) == -spec_axis(v),
        spec_axis_inverted(v) == spec_axis((256 - v) as u8),
        -32767 <= spec_axis(v) <= 32767,
{
    let w = (256 - v) as u8;
    assert(w as int == 256 - v);
    lemma_axis_closed_form(v);
    lemma_axis_closed_form(w);
}

/// Flipping is negation for every stick byte but 0: there the unflipped
/// value is limited to -32768 and the flipped one to 32767.
pub proof fn lemma_axis_inverted_negates(v: u8)
    requires
        v >= 1,
    ensures
        spec_axis_inverted(v) == -spec_axis(v),
{
    reveal(spec_axis);
    reveal(spec_axis_inverted);
    let a = (v - 128) * 32767;
    assert((128 - v) * 32767 == -a) by (nonlinear_arith)
        requires
            a == (v - 128) * 32767,
    ;
    assert(-4161409 <= a <= 4161409) by (nonlinear_arith)
        requires
            a == (v - 128) * 32767,
            1 <= v <= 255,
    ;
}

} // verus!
