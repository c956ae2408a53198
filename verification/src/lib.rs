//! Host-side logic of a Teams presence indicator: presence detection from the
//! Teams client log, the mapping from presence to LED commands, the USB HID and
//! serial wire formats spoken to the indicator, the decisions of the bridge
//! loop, and the bookkeeping of firmware and bridge updates.

pub mod text;
pub mod protocol;
pub mod config;
pub mod teams;
pub mod bridge;
pub mod updater;
pub mod serial;
pub mod flasher;
pub mod update_ui;
pub mod autostart;
pub mod icon;
