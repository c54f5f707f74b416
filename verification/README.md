# dsx

A DualSense-to-XInput bridge for Windows: it reads a PS5 controller (USB or
Bluetooth) and mirrors it onto a virtual Xbox 360 pad provided by the
ViGEmBus driver.

- `src/` is the verified library: `dualsense` parses the controller's HID
  input reports (USB full layout, Bluetooth compact and extended layouts),
  `mapping` turns a controller state into an XUSB pad report, `bridge` is the
  step the program runs for each report it reads, `rumble` builds the USB
  rumble output report, and `bits` states what reading a bit of a byte means.
- `app/main.rs` is the program: it finds the controller with `hidapi`, plugs
  in the virtual pad with `vigem-client`, and forwards reports. It only runs
  on Windows.
- `tests/` runs the library on concrete reports.
