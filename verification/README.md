# Teams presence bridge

Host side of a USB LED presence indicator: it follows the log of the
Microsoft Teams client, maps the presence to an LED command, and drives the
indicator over USB HID (with a serial text protocol for debugging).

- `src/` is the verified library (Verus): the HID report format and its
  decoding, the settings and their presence map, the Teams log parser and
  log follower, the bridge loop as a state machine with its laws, release
  and version checks (through the `semver` crate), the update window's
  state, the flash port choice, the serial command lines and the autostart
  value.
- `app/` is the Windows tray application around it: hidapi, serialport,
  espflash, ureq, the registry, eframe and tray-icon, and the loops that
  perform the library's actions.
- `tests/` runs the library on concrete inputs.
