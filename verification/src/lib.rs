//! Verified core of a DualSense-to-XInput bridge: parsing of the controller's
//! HID input reports, the mapping onto an Xbox 360 (XUSB) pad report, and the
//! rumble output report.

pub mod bits;
pub mod bridge;
pub mod dualsense;
pub mod mapping;
pub mod rumble;
