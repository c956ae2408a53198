//! Firmware flashing: the stages reported to the user, and the choice of the
//! serial port of the board in bootloader mode.

use vstd::prelude::*;
use crate::serial::PortEntry;
use crate::text::{append_chars, chars_of, decimal, push_decimal, string_from_chars};

verus! {

/// USB vendor id of the board's ROM bootloader (USB serial/JTAG).
pub const BOOTLOADER_VID: u16 = 0x303a;
/// Product id assumed for the bootloader when the port does not report one.
pub const BOOTLOADER_PID: u16 = 0x1001;
/// Flash offset of the application image (bootloader and partition table,
/// below it, are left alone).
pub const APP_FLASH_OFFSET: u32 = 0x10000;
/// Line rate used to talk to the bootloader.
pub const FLASH_BAUD: u32 = 115200;
/// How long to wait for the bootloader's port to appear, in milliseconds.
pub const PORT_WAIT_MS: u64 = 20000;
/// Pause between two port scans, in milliseconds.
pub const PORT_SCAN_INTERVAL_MS: u64 = 200;
/// Pause after the port appeared, for the driver to settle, in milliseconds.
pub const PORT_SETTLE_MS: u64 = 1500;

/// Whether a wait that began at `start_ms` may go on at `now_ms`: less than
/// `limit_ms` has passed (a clock that went back counts as no time).
pub fn still_waiting(start_ms: u64, now_ms: u64, limit_ms: u64) -> (r: bool)
    ensures
        r == ((if now_ms >= start_ms { now_ms - start_ms } else { 0 }) < limit_ms),
{
    now_ms.saturating_sub(start_ms) < limit_ms
}

/// Where a firmware flash stands.
#[derive(Debug, Clone, PartialEq, Eq)]
pub enum FlashStage {
    Connecting,
    Erasing,
    Flashing { percent: u8 },
    Verifying,
    Resetting,
    Done,
    Error(String),
}

/// Index of the first port that belongs to the bootloader.
pub open spec fn first_bootloader_port(ports: Seq<(Seq<char>, Option<(u16, u16)>)>, i: int) -> Option<int>
    decreases ports.len() - i,
{
    if i < 0 || i >= ports.len() {
        None
    } else if ports[i].1 matches Some(ids) && ids.0 == BOOTLOADER_VID {
        Some(i)
    } else {
        first_bootloader_port(ports, i + 1)
    }
}

/// The first listed USB port with the bootloader's vendor id.
pub fn find_bootloader_port(ports: &Vec<PortEntry>) -> (r: Option<usize>)
    ensures
        r matches Some(i) ==> first_bootloader_port(ports@.map_values(|p: PortEntry| p@), 0) == Some(i as int),
        r is None ==> first_bootloader_port(ports@.map_values(|p: PortEntry| p@), 0) is None,
{
    let ghost ps = ports@.map_values(|p: PortEntry| p@);
    let n = ports.len();
    for i in 0..n
        invariant
            n == ports@.len(),
            ps == ports@.map_values(|p: PortEntry| p@),
            first_bootloader_port(ps, 0) == first_bootloader_port(ps, i as int),
    {
        match ports[i].usb_ids {
            Some((vid, _)) => {
                if vid == BOOTLOADER_VID {
                    return Some(i);
                }
            },
            None => {},
        }
    }
    None
}

/// The USB ids to open the bootloader's port with: the port's own, or the
/// bootloader's defaults for a port that reports none.
pub fn bootloader_usb_ids(port: &PortEntry) -> (ids: (u16, u16))
    ensures
        ids == (match port.usb_ids {
            Some(i) => i,
            None => (BOOTLOADER_VID, BOOTLOADER_PID),
        }),
{
    match port.usb_ids {
        Some(i) => i,
        None => (BOOTLOADER_VID, BOOTLOADER_PID),
    }
}

/// The text that the update window shows for a flash stage.
pub open spec fn stage_text(stage: Option<FlashStage>) -> Seq<char> {
    match stage {
        Some(FlashStage::Connecting) => "Downloading firmware..."@,
        Some(FlashStage::Erasing) => "Connecting & Erasing flash..."@,
        Some(FlashStage::Flashing { percent }) => "Flashing firmware... "@ + decimal(percent as nat) + "%"@,
        Some(FlashStage::Verifying) => "Verifying flash..."@,
        Some(FlashStage::Resetting) => "Resetting ESP32 device..."@,
        Some(FlashStage::Done) => "Done!"@,
        Some(FlashStage::Error(err)) => "Error: "@ + err@,
        None => "Initializing..."@,
    }
}

/// The text that the update window shows for a flash stage.
pub fn flash_stage_text(stage: &Option<FlashStage>) -> (text: String)
    ensures
        text@ == stage_text(*stage),
{
    match stage {
        Some(FlashStage::Connecting) => "Downloading firmware...".to_owned(),
        Some(FlashStage::Erasing) => "Connecting & Erasing flash...".to_owned(),
        Some(FlashStage::Flashing { percent }) => {
            let mut v = chars_of("Flashing firmware... ");
            push_decimal(&mut v, *percent as u64);
            append_chars(&mut v, "%");
            string_from_chars(v.as_slice())
        },
        Some(FlashStage::Verifying) => "Verifying flash...".to_owned(),
        Some(FlashStage::Resetting) => "Resetting ESP32 device...".to_owned(),
        Some(FlashStage::Done) => "Done!".to_owned(),
        Some(FlashStage::Error(err)) => {
            let mut v = chars_of("Error: ");
            append_chars(&mut v, err.as_str());
            string_from_chars(v.as_slice())
        },
        None => "Initializing...".to_owned(),
    }
}

} // verus!
