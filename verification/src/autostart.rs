//! Start with Windows: the value written under the user's `Run` key.

use vstd::prelude::*;
use crate::text::{append_chars, same_text, string_from_chars};

verus! {

/// Name of the value under the `Run` key.
pub const APP_NAME: &'static str = "TeamsPresenceBridge";
/// The registry key, below the current user's hive, that lists programs
/// started at logon.
pub const RUN_KEY: &'static str = "Software\\Microsoft\\Windows\\CurrentVersion\\Run";

/// The command that starts the executable at `exe_path`: the path in
/// double quotes.
pub open spec fn quoted(exe_path: Seq<char>) -> Seq<char> {
    seq!['"'] + exe_path + seq!['"']
}

/// The value to store under the `Run` key for the executable at `exe_path`.
pub fn autostart_command(exe_path: &str) -> (cmd: String)
    ensures
        cmd@ == quoted(exe_path@),
{
    let mut v: Vec<char> = Vec::new();
    v.push('"');
    append_chars(&mut v, exe_path);
    v.push('"');
    string_from_chars(v.as_slice())
}

/// Whether the stored value starts this executable: only the exact quoted
/// path counts; without a known executable path autostart is off.
pub fn autostart_matches(stored: &str, exe_path: Option<&str>) -> (r: bool)
    ensures
        r == (match exe_path {
            Some(p) => stored@ == quoted(p@),
            None => false,
        }),
{
    match exe_path {
        Some(p) => {
            let expected = autostart_command(p);
            same_text(stored, expected.as_str())
        },
        None => false,
    }
}


/// The value that enabling autostart writes for an executable is
/// recognized as enabled for that executable, and for no other.
pub proof fn law_written_value_recognized(exe: Seq<char>, other: Seq<char>)
    ensures
        (quoted(exe) == quoted(other)) == (exe == other),
{
    if quoted(exe) == quoted(other) {
        assert(exe =~= quoted(exe).subrange(1, quoted(exe).len() - 1));
        assert(other =~= quoted(other).subrange(1, quoted(other).len() - 1));
    }
}

} // verus!
