//! One step of the bridge: what the virtual pad is sent for one input report
//! read from the controller.

use vstd::prelude::*;
use crate::dualsense::parse;
use crate::dualsense::spec_parse;
use crate::mapping::spec_map;
use crate::mapping::XusbReport;

verus! {

/// The pad report to send for one HID input report, or `None` when the
/// report is of no known layout (an empty read, a timeout, another report
/// ID), in which case nothing is sent.
pub open spec fn spec_pad_update(report: Seq<u8>) -> Option<XusbReport> {
    match spec_parse(report) {
        Some(s) => Some(spec_map(s)),
        None => None,
    }
}

/// Translate one HID input report into the XUSB report to forward, if any.
pub fn pad_update(report: &[u8]) -> (r: Option<XusbReport>)
    ensures
        r == spec_pad_update(report@),
        r is Some <==> (report@.len() >= 10 && report@[0] == 0x01) || (report@.len() >= 12
            && report@[0] == 0x31),
        r matches Some(x) ==> spec_parse(report@) matches Some(s) && x == spec_map(s),
{
    match parse(report) {
        Some(state) => Some(crate::mapping::map(&state)),
        None => None,
    }
}

/// The pad is sent something exactly for the reports of a known layout (ID
/// 0x01 with at least 10 bytes, USB or Bluetooth compact; ID 0x31 with at
/// least 12 bytes, Bluetooth extended), and what it is sent is the mapping
/// of the state that report parses to.
pub proof fn lemma_pad_update_forwards_known_reports(report: Seq<u8>)
    ensures
        spec_pad_update(report) is Some <==> (report.len() >= 10 && report[0] == 0x01) || (
        report.len() >= 12 && report[0] == 0x31),
        spec_parse(report) matches Some(s) ==> spec_pad_update(report) == Some(spec_map(s)),
        spec_parse(report) is None ==> spec_pad_update(report) is None,
{
}

} // verus!
