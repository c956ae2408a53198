//! The binary USB HID protocol spoken to the LED indicator.
//!
//! An output report is six bytes: the vendor report id followed by a command
//! id and four parameter bytes. Input reports start with a status code.

use vstd::prelude::*;

verus! {

/// Vendor id of the indicator board in normal (HID) mode.
pub const TARGET_VID: u16 = 0x2886;
/// Product id of the indicator board in normal (HID) mode.
pub const TARGET_PID: u16 = 0x0056;
/// Vendor-defined usage page of the indicator's HID interface.
pub const USAGE_PAGE: u16 = 0xFF00;
/// Report id that prefixes every output report.
pub const HID_REPORT_ID_VENDOR: u8 = 0x06;

/// Heartbeat request; answered with a PONG input report.
pub const CMD_PING: u8 = 0x01;
/// Turn all LEDs off.
pub const CMD_OFF: u8 = 0x02;
/// Solid color.
pub const CMD_SOLID: u8 = 0x03;
/// Breathing animation.
pub const CMD_BREATHE: u8 = 0x04;
/// Slow breathing animation.
pub const CMD_BREATHE_SLOW: u8 = 0x05;
/// Global brightness.
pub const CMD_BRIGHTNESS: u8 = 0x06;
/// Crossfade duration in milliseconds, high byte first.
pub const CMD_TRANSITION: u8 = 0x07;
/// Software reboot of the device.
pub const CMD_RESET: u8 = 0x08;
/// Reboot into the ROM bootloader for flashing.
pub const CMD_BOOTLOADER: u8 = 0x09;
/// Firmware version query; answered with `[0x0A, major, minor, patch]`.
pub const CMD_VERSION: u8 = 0x0A;

/// Status code of the answer to a ping.
pub const STATUS_PONG: u8 = 0x01;
/// Status code of a processed command.
pub const STATUS_OK: u8 = 0x02;
/// Status code of an unknown command or invalid data.
pub const STATUS_ERROR: u8 = 0xFF;

/// Longest crossfade the device accepts, in milliseconds.
pub const MAX_TRANSITION_MS: u16 = 10000;

/// The bytes of an output report: report id, command id, four parameters.
pub open spec fn report_bytes(cmd: u8, p1: u8, p2: u8, p3: u8, p4: u8) -> Seq<u8> {
    seq![HID_REPORT_ID_VENDOR, cmd, p1, p2, p3, p4]
}

/// Builds the output report for a command and its parameters.
pub fn encode_report(cmd: u8, p1: u8, p2: u8, p3: u8, p4: u8) -> (report: [u8; 6])
    ensures
        report@ == report_bytes(cmd, p1, p2, p3, p4),
{
    let report = [HID_REPORT_ID_VENDOR, cmd, p1, p2, p3, p4];
    assert(report@ =~= report_bytes(cmd, p1, p2, p3, p4));
    report
}

/// The duration that the device reads from a transition command's first
/// two parameters: `(P1 << 8) | P2`.
pub open spec fn transition_value(hi: u8, lo: u8) -> int {
    hi * 256 + lo
}

/// Splits a transition duration into its high and low byte.
pub fn transition_params(value: u16) -> (params: (u8, u8))
    ensures
        params.0 == value / 256,
        params.1 == value % 256,
        transition_value(params.0, params.1) == value,
{
    let hi = (value >> 8) as u8;
    let lo = (value & 0xFF) as u8;
    assert(value >> 8 == value / 256) by (bit_vector);
    assert(value & 0xFF == value % 256) by (bit_vector);
    (hi, lo)
}

/// Output report of a heartbeat.
pub fn ping_report() -> (report: [u8; 6])
    ensures
        report@ == report_bytes(CMD_PING, 0, 0, 0, 0),
{
    encode_report(CMD_PING, 0, 0, 0, 0)
}

/// Output report that sets the global brightness.
pub fn brightness_report(value: u8) -> (report: [u8; 6])
    ensures
        report@ == report_bytes(CMD_BRIGHTNESS, value, 0, 0, 0),
{
    encode_report(CMD_BRIGHTNESS, value, 0, 0, 0)
}

/// Output report that sets the crossfade duration.
pub fn transition_report(value: u16) -> (report: [u8; 6])
    ensures
        report@ == report_bytes(CMD_TRANSITION, (value / 256) as u8, (value % 256) as u8, 0, 0),
        transition_value(report@[2], report@[3]) == value,
{
    let (hi, lo) = transition_params(value);
    encode_report(CMD_TRANSITION, hi, lo, 0, 0)
}

/// Output report of a color command (`cmd_id` with red, green, blue).
pub fn color_report(cmd_id: u8, r: u8, g: u8, b: u8) -> (report: [u8; 6])
    ensures
        report@ == report_bytes(cmd_id, r, g, b, 0),
{
    encode_report(cmd_id, r, g, b, 0)
}

/// Output report of a firmware version query.
pub fn version_query_report() -> (report: [u8; 6])
    ensures
        report@ == report_bytes(CMD_VERSION, 0, 0, 0, 0),
{
    encode_report(CMD_VERSION, 0, 0, 0, 0)
}

/// Output report that reboots the device into its bootloader.
pub fn bootloader_report() -> (report: [u8; 6])
    ensures
        report@ == report_bytes(CMD_BOOTLOADER, 0, 0, 0, 0),
{
    encode_report(CMD_BOOTLOADER, 0, 0, 0, 0)
}

/// Whether an enumerated HID interface is the indicator: vendor usage page
/// and the board's vendor and product id.
pub fn is_target_device(usage_page: u16, vendor_id: u16, product_id: u16) -> (r: bool)
    ensures
        r == (usage_page == USAGE_PAGE && vendor_id == TARGET_VID && product_id == TARGET_PID),
{
    usage_page == USAGE_PAGE && vendor_id == TARGET_VID && product_id == TARGET_PID
}

/// What a read of an input report amounted to.
pub enum ReadOutcome {
    /// The read failed; the device is gone.
    Failed,
    /// `n` bytes arrived (zero on a timeout).
    Received(usize),
}

/// Whether a ping's answer, of which `buf` holds the first bytes, is a PONG.
pub open spec fn is_pong(n: usize, buf: Seq<u8>) -> bool {
    n > 0 && buf.len() > 0 && buf[0] == STATUS_PONG
}

/// Decides whether the device stays connected after a ping: only a failed
/// read drops it; a timeout or an unexpected answer keeps it.
pub fn ping_keeps_connection(outcome: &ReadOutcome) -> (keep: bool)
    ensures
        keep == !(outcome is Failed),
{
    match outcome {
        ReadOutcome::Failed => false,
        ReadOutcome::Received(_) => true,
    }
}

/// Whether a ping's answer is a PONG.
pub fn answer_is_pong(n: usize, buf: &[u8]) -> (r: bool)
    ensures
        r == is_pong(n, buf@),
{
    n > 0 && buf.len() > 0 && buf[0] == STATUS_PONG
}

/// The firmware version in the answer to a version query, of which `buf`
/// holds the first bytes: it needs at least four bytes, the first being the
/// query's command id.
pub open spec fn version_of_answer(n: usize, buf: Seq<u8>) -> Option<(u8, u8, u8)> {
    if n >= 4 && buf.len() >= 4 && buf[0] == CMD_VERSION {
        Some((buf[1], buf[2], buf[3]))
    } else {
        None
    }
}

/// Reads the firmware version out of the answer to a version query.
pub fn parse_version_answer(outcome: &ReadOutcome, buf: &[u8]) -> (v: Option<(u8, u8, u8)>)
    ensures
        v == (match outcome {
            ReadOutcome::Failed => None,
            ReadOutcome::Received(n) => version_of_answer(*n, buf@),
        }),
{
    match outcome {
        ReadOutcome::Failed => None,
        ReadOutcome::Received(n) => {
            if *n >= 4 && buf.len() >= 4 && buf[0] == CMD_VERSION {
                Some((buf[1], buf[2], buf[3]))
            } else {
                None
            }
        },
    }
}

} // verus!
