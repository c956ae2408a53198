//! The text protocol of the indicator's serial port (`NAME:R,G,B\n`,
//! `BRIGHTNESS:n\n`, `TRANSITION:n\n`, `PING\n`) and the choice of the port.

use vstd::prelude::*;
use crate::protocol::{TARGET_PID, TARGET_VID};
use crate::text::{chars_of, decimal, push_decimal, same_text, string_from_chars};

verus! {

/// Port name that asks for automatic detection.
pub const AUTO_PORT: &'static str = "AUTO";
/// Line rate of the serial port.
pub const SERIAL_BAUD: u32 = 115200;
/// Read timeout of the serial port, in milliseconds.
pub const SERIAL_TIMEOUT_MS: u64 = 100;
/// The heartbeat line.
pub const PING_LINE: &'static str = "PING\n";

/// A serial port that the system lists.
pub struct PortEntry {
    pub port_name: String,
    /// Vendor and product id, for a USB port.
    pub usb_ids: Option<(u16, u16)>,
}

impl View for PortEntry {
    type V = (Seq<char>, Option<(u16, u16)>);

    open spec fn view(&self) -> (Seq<char>, Option<(u16, u16)>) {
        (self.port_name@, self.usb_ids)
    }
}

/// `head` followed by the decimal `n` and a line break.
pub open spec fn numeric_line(head: Seq<char>, n: nat) -> Seq<char> {
    head + decimal(n) + seq!['\n']
}

fn numeric_command(head: &str, n: u64) -> (line: String)
    ensures
        line@ == numeric_line(head@, n as nat),
{
    let mut v = chars_of(head);
    push_decimal(&mut v, n);
    v.push('\n');
    string_from_chars(v.as_slice())
}

/// The line that sets the global brightness: `BRIGHTNESS:n\n`.
pub fn brightness_command(value: u8) -> (line: String)
    ensures
        line@ == numeric_line("BRIGHTNESS:"@, value as nat),
{
    numeric_command("BRIGHTNESS:", value as u64)
}

/// The line that sets the crossfade duration: `TRANSITION:n\n`.
pub fn transition_command(value: u16) -> (line: String)
    ensures
        line@ == numeric_line("TRANSITION:"@, value as nat),
{
    numeric_command("TRANSITION:", value as u64)
}

/// Whether a configured port name asks for automatic detection.
pub fn is_auto_port(requested: &str) -> (r: bool)
    ensures
        r == (requested@ == AUTO_PORT@),
{
    same_text(requested, AUTO_PORT)
}

/// Whether a listed port is the indicator board's: a USB port with the
/// board's vendor and product id.
pub open spec fn is_board_port(p: (Seq<char>, Option<(u16, u16)>)) -> bool {
    p.1 == Some((TARGET_VID, TARGET_PID))
}

/// Index of the first port of the board among `ports`, from `i` on.
pub open spec fn first_board_port(ports: Seq<(Seq<char>, Option<(u16, u16)>)>, i: int) -> Option<int>
    decreases ports.len() - i,
{
    if i < 0 || i >= ports.len() {
        None
    } else if is_board_port(ports[i]) {
        Some(i)
    } else {
        first_board_port(ports, i + 1)
    }
}

/// The port that automatic detection picks: the first one of the board,
/// none where the board is not listed.
pub open spec fn auto_port(ports: Seq<(Seq<char>, Option<(u16, u16)>)>) -> Option<Seq<char>> {
    match first_board_port(ports, 0) {
        Some(i) => Some(ports[i].0),
        None => None,
    }
}

/// `first_board_port` finds the first port of the board, and none where
/// there is none.
pub proof fn law_first_board_port(ports: Seq<(Seq<char>, Option<(u16, u16)>)>, i: int)
    requires
        0 <= i,
    ensures
        first_board_port(ports, i) matches Some(k) ==> i <= k < ports.len() && is_board_port(ports[k])
            && forall|j: int| i <= j < k ==> !is_board_port(ports[j]),
        first_board_port(ports, i) is None ==> forall|j: int| i <= j < ports.len() ==> !is_board_port(ports[j]),
    decreases ports.len() - i,
{
    if i < ports.len() && !is_board_port(ports[i]) {
        law_first_board_port(ports, i + 1);
    }
}

/// Picks the indicator board's port among those listed: the first USB port
/// with the board's vendor and product id; none where there is none.
pub fn auto_detect_port(ports: &Vec<PortEntry>) -> (name: Option<String>)
    ensures
        ({
            let ps = ports@.map_values(|p: PortEntry| p@);
            match name {
                Some(n) => auto_port(ps) == Some(n@),
                None => auto_port(ps) is None,
            }
        }),
{
    let ghost ps = ports@.map_values(|p: PortEntry| p@);
    let n = ports.len();
    for i in 0..n
        invariant
            n == ports@.len(),
            ps == ports@.map_values(|p: PortEntry| p@),
            first_board_port(ps, 0) == first_board_port(ps, i as int),
    {
        let board = match ports[i].usb_ids {
            Some((vid, pid)) => vid == TARGET_VID && pid == TARGET_PID,
            None => false,
        };
        if board {
            return Some(ports[i].port_name.clone());
        }
    }
    None
}

} // verus!
