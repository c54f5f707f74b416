//! Parsing of DualSense HID input reports.
//!
//! The controller sends three report layouts:
//! - USB: report ID 0x01, 64 bytes, full layout starting at byte 1
//! - Bluetooth (default): report ID 0x01, 10 bytes, compact layout
//! - Bluetooth (extended): report ID 0x31, full layout starting at byte 2
//!
//! Sony's Vendor ID is 0x054C; the DualSense is PID 0x0CE6 and the
//! DualSense Edge is PID 0x0DF2.

use vstd::prelude::*;
use crate::bits::bit;
use crate::bits::lemma_u8_masks;

verus! {

pub const SONY_VID: u16 = 0x054C;

pub const DUALSENSE_PIDS: [u16; 2] = [0x0CE6, 0x0DF2];

/// The subset of DualSense state we forward to the virtual pad.
/// Stick axes are raw (0..=255, 128 centered, Y grows downward).
#[derive(Debug, Clone, Copy, PartialEq, Eq, Structural)]
pub struct DsState {
    pub lx: u8,
    pub ly: u8,
    pub rx: u8,
    pub ry: u8,
    pub l2: u8,
    pub r2: u8,
    pub dpad_up: bool,
    pub dpad_down: bool,
    pub dpad_left: bool,
    pub dpad_right: bool,
    pub square: bool,
    pub cross: bool,
    pub circle: bool,
    pub triangle: bool,
    pub l1: bool,
    pub r1: bool,
    pub l3: bool,
    pub r3: bool,
    pub create: bool,
    pub options: bool,
    pub ps: bool,
}

/// Every axis, trigger and button at zero / released.
pub open spec fn spec_zero_state() -> DsState {
    DsState {
        lx: 0,
        ly: 0,
        rx: 0,
        ry: 0,
        l2: 0,
        r2: 0,
        dpad_up: false,
        dpad_down: false,
        dpad_left: false,
        dpad_right: false,
        square: false,
        cross: false,
        circle: false,
        triangle: false,
        l1: false,
        r1: false,
        l3: false,
        r3: false,
        create: false,
        options: false,
        ps: false,
    }
}

impl Default for DsState {
    fn default() -> (s: Self)
        ensures
            s == spec_zero_state(),
    {
        DsState {
            lx: 0,
            ly: 0,
            rx: 0,
            ry: 0,
            l2: 0,
            r2: 0,
            dpad_up: false,
            dpad_down: false,
            dpad_left: false,
            dpad_right: false,
            square: false,
            cross: false,
            circle: false,
            triangle: false,
            l1: false,
            r1: false,
            l3: false,
            r3: false,
            create: false,
            options: false,
            ps: false,
        }
    }
}

// The d-pad is a hat switch in the low nibble of the first button byte:
// 0 = north, then clockwise in steps of 45 degrees up to 7 = north-west;
// 8 (and any larger value) = released.

/// The hat points north, north-east or north-west.
pub open spec fn hat_up(hat: int) -> bool {
    hat == 7 || hat == 0 || hat == 1
}

/// The hat points north-east, east or south-east.
pub open spec fn hat_right(hat: int) -> bool {
    hat == 1 || hat == 2 || hat == 3
}

/// The hat points south-east, south or south-west.
pub open spec fn hat_down(hat: int) -> bool {
    hat == 3 || hat == 4 || hat == 5
}

/// The hat points south-west, west or north-west.
pub open spec fn hat_left(hat: int) -> bool {
    hat == 5 || hat == 6 || hat == 7
}

/// `s` with its buttons replaced by those the three button bytes hold:
/// `b0` = hat (low nibble), square, cross, circle, triangle (bits 4..7);
/// `b1` = L1, R1 (bits 0, 1), create, options, L3, R3 (bits 4..7);
/// `b2` = PS (bit 0).
pub open spec fn spec_with_buttons(s: DsState, b0: u8, b1: u8, b2: u8) -> DsState {
    let hat = (b0 as int) % 16;
    DsState {
        dpad_up: hat_up(hat),
        dpad_right: hat_right(hat),
        dpad_down: hat_down(hat),
        dpad_left: hat_left(hat),
        square: bit(b0 as int, 4),
        cross: bit(b0 as int, 5),
        circle: bit(b0 as int, 6),
        triangle: bit(b0 as int, 7),
        l1: bit(b1 as int, 0),
        r1: bit(b1 as int, 1),
        create: bit(b1 as int, 4),
        options: bit(b1 as int, 5),
        l3: bit(b1 as int, 6),
        r3: bit(b1 as int, 7),
        ps: bit(b2 as int, 0),
        ..s
    }
}

/// Full layout: LX LY RX RY L2 R2 seq buttons0 buttons1 buttons2 ...
pub open spec fn spec_full_layout(d: Seq<u8>) -> DsState {
    spec_with_buttons(
        DsState { lx: d[0], ly: d[1], rx: d[2], ry: d[3], l2: d[4], r2: d[5], ..spec_zero_state() },
        d[7],
        d[8],
        d[9],
    )
}

/// Bluetooth compact layout: LX LY RX RY buttons0 buttons1 buttons2 L2 R2
pub open spec fn spec_compact_layout(d: Seq<u8>) -> DsState {
    spec_with_buttons(
        DsState { lx: d[0], ly: d[1], rx: d[2], ry: d[3], l2: d[7], r2: d[8], ..spec_zero_state() },
        d[4],
        d[5],
        d[6],
    )
}

/// What a HID input report holds, or `None` for a report of no known layout:
/// ID 0x01 with at least 11 bytes is the full (USB) layout from byte 1,
/// ID 0x01 with exactly 10 bytes the Bluetooth compact layout from byte 1,
/// ID 0x31 with at least 12 bytes the full layout from byte 2.
pub open spec fn spec_parse(report: Seq<u8>) -> Option<DsState> {
    if report.len() == 0 {
        None
    } else if report[0] == 0x01 && report.len() >= 11 {
        Some(spec_full_layout(report.skip(1)))
    } else if report[0] == 0x01 && report.len() >= 10 {
        Some(spec_compact_layout(report.skip(1)))
    } else if report[0] == 0x31 && report.len() >= 12 {
        Some(spec_full_layout(report.skip(2)))
    } else {
        None
    }
}

/// Parse one HID input report. Returns None for reports we don't understand.
pub fn parse(report: &[u8]) -> (res: Option<DsState>)
    ensures
        res == spec_parse(report@),
        res is Some <==> (report@.len() >= 10 && report@[0] == 0x01) || (report@.len() >= 12
            && report@[0] == 0x31),
{
    if report.len() == 0 {
        return None;
    }
    let id = report[0];
    if id == 0x01 && report.len() >= 11 {
        // USB full layout (64 bytes).
        Some(parse_full(&report[1..report.len()]))
    } else if id == 0x01 && report.len() >= 10 {
        // Bluetooth compact layout (10 bytes).
        Some(parse_bt_compact(&report[1..report.len()]))
    } else if id == 0x31 && report.len() >= 12 {
        // Bluetooth extended layout: one extra sequence byte before the data.
        Some(parse_full(&report[2..report.len()]))
    } else {
        None
    }
}

/// Full layout: LX LY RX RY L2 R2 seq buttons0 buttons1 buttons2 ...
fn parse_full(d: &[u8]) -> (s: DsState)
    requires
        d@.len() >= 10,
    ensures
        s == spec_full_layout(d@),
{
    let mut s = DsState {
        lx: d[0],
        ly: d[1],
        rx: d[2],
        ry: d[3],
        l2: d[4],
        r2: d[5],
        ..DsState::default()
    };
    apply_buttons(&mut s, d[7], d[8], d[9]);
    s
}

/// Bluetooth compact layout: LX LY RX RY buttons0 buttons1 buttons2 L2 R2
fn parse_bt_compact(d: &[u8]) -> (s: DsState)
    requires
        d@.len() >= 9,
    ensures
        s == spec_compact_layout(d@),
{
    let mut s = DsState {
        lx: d[0],
        ly: d[1],
        rx: d[2],
        ry: d[3],
        l2: d[7],
        r2: d[8],
        ..DsState::default()
    };
    apply_buttons(&mut s, d[4], d[5], d[6]);
    s
}

#[verifier::spinoff_prover]
fn apply_buttons(s: &mut DsState, b0: u8, b1: u8, b2: u8)
    ensures
        *final(s) == spec_with_buttons(*old(s), b0, b1, b2),
{
    proof {
        lemma_u8_masks(b0);
        lemma_u8_masks(b1);
        lemma_u8_masks(b2);
    }
    // b0 low nibble is the d-pad hat: 0=N clockwise to 7=NW, 8=released.
    let hat = b0 & 0x0F;
    s.dpad_up = matches!(hat, 7 | 0 | 1);
    s.dpad_right = matches!(hat, 1 | 2 | 3);
    s.dpad_down = matches!(hat, 3 | 4 | 5);
    s.dpad_left = matches!(hat, 5 | 6 | 7);
    s.square = b0 & 0x10 != 0;
    s.cross = b0 & 0x20 != 0;
    s.circle = b0 & 0x40 != 0;
    s.triangle = b0 & 0x80 != 0;
    s.l1 = b1 & 0x01 != 0;
    s.r1 = b1 & 0x02 != 0;
    s.create = b1 & 0x10 != 0;
    s.options = b1 & 0x20 != 0;
    s.l3 = b1 & 0x40 != 0;
    s.r3 = b1 & 0x80 != 0;
    s.ps = b2 & 0x01 != 0;
}

/// Whether a HID device with these IDs is a DualSense or DualSense Edge.
pub fn is_dualsense(vendor_id: u16, product_id: u16) -> (b: bool)
    ensures
        b == (vendor_id == 0x054C && (product_id == 0x0CE6 || product_id == 0x0DF2)),
{
    vendor_id == SONY_VID && (product_id == DUALSENSE_PIDS[0] || product_id == DUALSENSE_PIDS[1])
}

/// A hat switch cannot point two opposite ways at once: whatever a report
/// holds, a parsed state never has up with down, nor left with right.
pub proof fn lemma_parse_dpad_never_opposed(report: Seq<u8>)
    ensures
        spec_parse(report) matches Some(s) ==> !(s.dpad_up && s.dpad_down) && !(s.dpad_left
            && s.dpad_right),
{
}

/// The buttons of `t` are those the three button bytes hold, read by mask:
/// in `b0` the low nibble is the d-pad hat (0 = north, clockwise in steps of
/// 45 degrees to 7 = north-west, 8 or more = released) and 0x10, 0x20,
/// 0x40, 0x80 are square, cross, circle, triangle; in `b1` 0x01, 0x02 are
/// L1, R1 and 0x10, 0x20, 0x40, 0x80 are create, options, L3, R3; in `b2`
/// 0x01 is PS.
pub open spec fn holds_buttons(t: DsState, b0: u8, b1: u8, b2: u8) -> bool {
    let hat = b0 & 0x0Fu8;
    &&& t.dpad_up == (hat == 0 || hat == 1 || hat == 7)
    &&& t.dpad_right == (hat == 1 || hat == 2 || hat == 3)
    &&& t.dpad_down == (hat == 3 || hat == 4 || hat == 5)
    &&& t.dpad_left == (hat == 5 || hat == 6 || hat == 7)
    &&& t.square == ((b0 & 0x10u8) != 0)
    &&& t.cross == ((b0 & 0x20u8) != 0)
    &&& t.circle == ((b0 & 0x40u8) != 0)
    &&& t.triangle == ((b0 & 0x80u8) != 0)
    &&& t.l1 == ((b1 & 0x01u8) != 0)
    &&& t.r1 == ((b1 & 0x02u8) != 0)
    &&& t.create == ((b1 & 0x10u8) != 0)
    &&& t.options == ((b1 & 0x20u8) != 0)
    &&& t.l3 == ((b1 & 0x40u8) != 0)
    &&& t.r3 == ((b1 & 0x80u8) != 0)
    &&& t.ps == ((b2 & 0x01u8) != 0)
}

/// Decoding the button bytes into a state gives it exactly the buttons the
/// bytes hold (each button its own mask, see `holds_buttons`) and keeps its
/// sticks and triggers.
pub proof fn lemma_decoded_buttons(s: DsState, b0: u8, b1: u8, b2: u8)
    ensures
        holds_buttons(spec_with_buttons(s, b0, b1, b2), b0, b1, b2),
        spec_with_buttons(s, b0, b1, b2).lx == s.lx,
        spec_with_buttons(s, b0, b1, b2).ly == s.ly,
        spec_with_buttons(s, b0, b1, b2).rx == s.rx,
        spec_with_buttons(s, b0, b1, b2).ry == s.ry,
        spec_with_buttons(s, b0, b1, b2).l2 == s.l2,
        spec_with_buttons(s, b0, b1, b2).r2 == s.r2,
{
    lemma_u8_masks(b0);
    lemma_u8_masks(b1);
    lemma_u8_masks(b2);
}

/// What a full-layout report (USB, or Bluetooth extended) parses to, byte by
/// byte: from the start of its layout data (byte 1, or byte 2 after the
/// extended report's sequence byte), the left stick X and Y, the right stick
/// X and Y, L2 and R2, a sequence byte, then the three button bytes.
pub proof fn lemma_parse_full_fields(report: Seq<u8>)
    requires
        is_full_layout(report),
    ensures
        spec_parse(report) is Some,
        ({
            let s = spec_parse(report).unwrap();
            let o = layout_start(report);
            &&& s.lx == report[o]
            &&& s.ly == report[o + 1]
            &&& s.rx == report[o + 2]
            &&& s.ry == report[o + 3]
            &&& s.l2 == report[o + 4]
            &&& s.r2 == report[o + 5]
            &&& holds_buttons(s, report[o + 7], report[o + 8], report[o + 9])
        }),
{
    let o = layout_start(report);
    let d = report.skip(o);
    let base = DsState { lx: d[0], ly: d[1], rx: d[2], ry: d[3], l2: d[4], r2: d[5], ..spec_zero_state() };
    lemma_decoded_buttons(base, d[7], d[8], d[9]);
}

/// What a Bluetooth compact report (ID 0x01, 10 bytes) parses to, byte by
/// byte: after the ID, the left stick X and Y, the right stick X and Y, the
/// three button bytes, then L2 and R2.
pub proof fn lemma_parse_compact_fields(report: Seq<u8>)
    requires
        report.len() == 10,
        report[0] == 0x01,
    ensures
        spec_parse(report) is Some,
        ({
            let s = spec_parse(report).unwrap();
            &&& s.lx == report[1]
            &&& s.ly == report[2]
            &&& s.rx == report[3]
            &&& s.ry == report[4]
            &&& s.l2 == report[8]
            &&& s.r2 == report[9]
            &&& holds_buttons(s, report[5], report[6], report[7])
        }),
{
    let d = report.skip(1);
    let base = DsState { lx: d[0], ly: d[1], rx: d[2], ry: d[3], l2: d[7], r2: d[8], ..spec_zero_state() };
    lemma_decoded_buttons(base, d[4], d[5], d[6]);
}

/// How many d-pad directions a state presses.
pub open spec fn dpad_pressed(s: DsState) -> int {
    (if s.dpad_up { 1int } else { 0int }) + (if s.dpad_right { 1int } else { 0int }) + (if s.dpad_down {
        1int
    } else {
        0int
    }) + (if s.dpad_left { 1int } else { 0int })
}

/// The d-pad for every hat value: never two opposite directions; a compass
/// point (even hat value below 8) presses one direction, a diagonal (odd
/// value below 8) the two adjacent ones, and 8 or more none.
pub proof fn lemma_hat_directions(s: DsState, b0: u8, b1: u8, b2: u8)
    ensures
        ({
            let t = spec_with_buttons(s, b0, b1, b2);
            let hat = (b0 as int) % 16;
            &&& !(t.dpad_up && t.dpad_down)
            &&& !(t.dpad_left && t.dpad_right)
            &&& hat < 8 && hat % 2 == 0 ==> dpad_pressed(t) == 1
            &&& hat < 8 && hat % 2 == 1 ==> dpad_pressed(t) == 2
            &&& hat >= 8 ==> dpad_pressed(t) == 0
        }),
{
}

/// The buttons of a decoded state depend on the button bytes alone: they
/// overwrite whatever buttons the state held, keep its sticks and triggers,
/// and decoding the same bytes twice changes nothing more.
pub proof fn lemma_buttons_from_bytes_alone(s: DsState, t: DsState, b0: u8, b1: u8, b2: u8)
    ensures
        spec_with_buttons(spec_with_buttons(s, b0, b1, b2), b0, b1, b2) == spec_with_buttons(
            s,
            b0,
            b1,
            b2,
        ),
        spec_with_buttons(s, b0, b1, b2) == (DsState {
            lx: s.lx,
            ly: s.ly,
            rx: s.rx,
            ry: s.ry,
            l2: s.l2,
            r2: s.r2,
            ..spec_with_buttons(t, b0, b1, b2)
        }),
{
}

/// Controls that are not bridged (bits 2 and 3 of the second button byte,
/// bits 1 to 7 of the third: touchpad, mute and the like) do not change
/// the decoded state: flipping any of them gives the same state.
pub proof fn lemma_unbridged_bits_ignored(s: DsState, b0: u8, b1: u8, b2: u8, m1: u8, m2: u8)
    requires
        m1 & 0xF3u8 == 0,
        m2 & 0x01u8 == 0,
    ensures
        spec_with_buttons(s, b0, b1 ^ m1, b2 ^ m2) == spec_with_buttons(s, b0, b1, b2),
{
    lemma_u8_masks(b1);
    lemma_u8_masks(b1 ^ m1);
    lemma_u8_masks(b2);
    lemma_u8_masks(b2 ^ m2);
    assert({
        &&& ((b1 ^ m1) & 0x01u8 != 0) == (b1 & 0x01u8 != 0)
        &&& ((b1 ^ m1) & 0x02u8 != 0) == (b1 & 0x02u8 != 0)
        &&& ((b1 ^ m1) & 0x10u8 != 0) == (b1 & 0x10u8 != 0)
        &&& ((b1 ^ m1) & 0x20u8 != 0) == (b1 & 0x20u8 != 0)
        &&& ((b1 ^ m1) & 0x40u8 != 0) == (b1 & 0x40u8 != 0)
        &&& ((b1 ^ m1) & 0x80u8 != 0) == (b1 & 0x80u8 != 0)
        &&& ((b2 ^ m2) & 0x01u8 != 0) == (b2 & 0x01u8 != 0)
    }) by (bit_vector)
        requires
            m1 & 0xF3u8 == 0,
            m2 & 0x01u8 == 0,
    ;
}

/// Two full-layout byte runs that agree on what is bridged: the six axis
/// and trigger bytes, the hat and face-button byte, the bridged bits of the
/// other two button bytes. The sequence byte (index 6) and everything after
/// index 9 may differ.
pub open spec fn same_bridged_full(d: Seq<u8>, e: Seq<u8>) -> bool {
    &&& d.len() >= 10
    &&& e.len() >= 10
    &&& forall|i: int| 0 <= i < 6 ==> d[i] == e[i]
    &&& d[7] == e[7]
    &&& (d[8] ^ e[8]) & 0xF3u8 == 0
    &&& (d[9] ^ e[9]) & 0x01u8 == 0
}

/// Two compact-layout byte runs that agree on what is bridged: the sticks,
/// the hat and face-button byte, the bridged bits of the other two button
/// bytes, and the triggers.
pub open spec fn same_bridged_compact(d: Seq<u8>, e: Seq<u8>) -> bool {
    &&& d.len() >= 9
    &&& e.len() >= 9
    &&& forall|i: int| 0 <= i < 4 ==> d[i] == e[i]
    &&& d[4] == e[4]
    &&& (d[5] ^ e[5]) & 0xF3u8 == 0
    &&& (d[6] ^ e[6]) & 0x01u8 == 0
    &&& d[7] == e[7]
    &&& d[8] == e[8]
}

/// Flipping `x` by `x ^ y` gives `y`.
proof fn lemma_xor_back(x: u8, y: u8)
    ensures
        x ^ (x ^ y) == y,
{
    assert(x ^ (x ^ y) == y) by (bit_vector);
}

/// The full layout reads only what is bridged.
pub proof fn lemma_full_layout_reads_only_bridged(d: Seq<u8>, e: Seq<u8>)
    requires
        same_bridged_full(d, e),
    ensures
        spec_full_layout(d) == spec_full_layout(e),
{
    lemma_xor_back(d[8], e[8]);
    lemma_xor_back(d[9], e[9]);
    assert(d[0] == e[0] && d[1] == e[1] && d[2] == e[2] && d[3] == e[3] && d[4] == e[4] && d[5]
        == e[5]);
    let base = DsState { lx: d[0], ly: d[1], rx: d[2], ry: d[3], l2: d[4], r2: d[5], ..spec_zero_state() };
    lemma_unbridged_bits_ignored(base, d[7], d[8], d[9], d[8] ^ e[8], d[9] ^ e[9]);
}

/// The compact layout reads only what is bridged.
pub proof fn lemma_compact_layout_reads_only_bridged(d: Seq<u8>, e: Seq<u8>)
    requires
        same_bridged_compact(d, e),
    ensures
        spec_compact_layout(d) == spec_compact_layout(e),
{
    lemma_xor_back(d[5], e[5]);
    lemma_xor_back(d[6], e[6]);
    assert(d[0] == e[0] && d[1] == e[1] && d[2] == e[2] && d[3] == e[3]);
    let base = DsState { lx: d[0], ly: d[1], rx: d[2], ry: d[3], l2: d[7], r2: d[8], ..spec_zero_state() };
    lemma_unbridged_bits_ignored(base, d[4], d[5], d[6], d[5] ^ e[5], d[6] ^ e[6]);
}

/// A report in the full layout: USB (ID 0x01, 11 bytes or more) or Bluetooth
/// extended (ID 0x31, 12 bytes or more).
pub open spec fn is_full_layout(report: Seq<u8>) -> bool {
    (report.len() >= 11 && report[0] == 0x01) || (report.len() >= 12 && report[0] == 0x31)
}

/// Where the layout data of a report starts: after the ID, and for the
/// Bluetooth extended report after its extra sequence byte too.
pub open spec fn layout_start(report: Seq<u8>) -> int {
    if report[0] == 0x31 {
        2
    } else {
        1
    }
}

/// Two full-layout reports with the same ID that agree on what is bridged
/// parse the same: the sequence byte, the bytes after the layout, the
/// touchpad and mute bits and the other unbridged button bits do not matter.
pub proof fn lemma_parse_full_reads_only_bridged(r1: Seq<u8>, r2: Seq<u8>)
    requires
        is_full_layout(r1),
        is_full_layout(r2),
        r1[0] == r2[0],
        same_bridged_full(r1.skip(layout_start(r1)), r2.skip(layout_start(r2))),
    ensures
        spec_parse(r1) == spec_parse(r2),
{
    lemma_full_layout_reads_only_bridged(r1.skip(layout_start(r1)), r2.skip(layout_start(r2)));
}

/// Two Bluetooth compact reports that agree on what is bridged parse the
/// same: the touchpad and mute bits and the other unbridged button bits do
/// not matter.
pub proof fn lemma_parse_compact_reads_only_bridged(r1: Seq<u8>, r2: Seq<u8>)
    requires
        r1.len() == 10,
        r2.len() == 10,
        r1[0] == 0x01,
        r2[0] == 0x01,
        same_bridged_compact(r1.skip(1), r2.skip(1)),
    ensures
        spec_parse(r1) == spec_parse(r2),
{
    lemma_compact_layout_reads_only_bridged(r1.skip(1), r2.skip(1));
}

/// Bytes after those a full-layout report uses do not change what it parses
/// to: a 64-byte USB report or a 78-byte Bluetooth extended report parses
/// as its first 11 or 12 bytes do.
pub proof fn lemma_parse_ignores_trailing_bytes(report: Seq<u8>, extra: Seq<u8>)
    requires
        (report.len() >= 11 && report[0] == 0x01) || (report.len() >= 12 && report[0] == 0x31),
    ensures
        spec_parse(report + extra) == spec_parse(report),
{
    let r = report + extra;
    assert(r[0] == report[0]);
    if report[0] == 0x01 {
        assert forall|i: int| 0 <= i < 10 implies r.skip(1)[i] == report.skip(1)[i] by {}
    } else {
        assert forall|i: int| 0 <= i < 10 implies r.skip(2)[i] == report.skip(2)[i] by {}
    }
}

} // verus!
