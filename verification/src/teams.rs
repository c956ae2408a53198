//! Presence detection from the log of the Teams client.
//!
//! The client writes lines such as
//! `UserPresenceAction: {cloud_context: https://teams.microsoft.com, availability: Busy}`;
//! the presence is the availability of the last such line, `PresenceUnknown`
//! being ignored.

use vstd::prelude::*;
use crate::text::{
    chars_of, clone_opt, opt_chars, same_chars, same_opt_text, same_text, string_from_chars,
};

verus! {

/// Text that precedes the availability in a presence line of the log.
pub const PRESENCE_PREFIX: &'static str = "UserPresenceAction: {cloud_context: https://teams.microsoft.com, availability: ";
/// Availability that the client logs when it does not know the presence.
pub const PRESENCE_UNKNOWN: &'static str = "PresenceUnknown";

/// Whether `pat` occurs in `s` at index `i`.
pub open spec fn occurs_at(s: Seq<char>, pat: Seq<char>, i: int) -> bool {
    0 <= i && i + pat.len() <= s.len() && s.subrange(i, i + pat.len()) == pat
}

/// The first index at or after `i` where `pat` occurs in `s`.
pub open spec fn find_from(s: Seq<char>, pat: Seq<char>, i: int) -> Option<int>
    decreases s.len() - i,
{
    if i < 0 || i + pat.len() > s.len() {
        None
    } else if occurs_at(s, pat, i) {
        Some(i)
    } else if i >= s.len() {
        None
    } else {
        find_from(s, pat, i + 1)
    }
}

/// The first index where `pat` occurs in `s`.
pub open spec fn find(s: Seq<char>, pat: Seq<char>) -> Option<int> {
    find_from(s, pat, 0)
}

/// `find_from` finds the first occurrence at or after `i`, and nothing when
/// there is none.
pub proof fn lemma_find_from(s: Seq<char>, pat: Seq<char>, i: int)
    requires
        0 <= i,
    ensures
        find_from(s, pat, i) matches Some(j) ==> i <= j && occurs_at(s, pat, j) && forall|k: int|
            i <= k < j ==> !occurs_at(s, pat, k),
        find_from(s, pat, i) is None ==> forall|k: int| i <= k ==> !occurs_at(s, pat, k),
    decreases s.len() - i,
{
    if i + pat.len() > s.len() {
    } else if occurs_at(s, pat, i) {
    } else if i >= s.len() {
        assert(s.subrange(i, i + pat.len()) =~= pat);
    } else {
        lemma_find_from(s, pat, i + 1);
    }
}

/// The presence that a single log line reports, if any: the text between
/// the presence prefix and the next `}`, unless it is `PresenceUnknown`.
pub open spec fn line_presence(line: Seq<char>) -> Option<Seq<char>> {
    match find(line, PRESENCE_PREFIX@) {
        Some(start) => {
            let rest = line.subrange(start + PRESENCE_PREFIX@.len(), line.len() as int);
            match find(rest, seq!['}']) {
                Some(end) => {
                    let status = rest.subrange(0, end);
                    if status != PRESENCE_UNKNOWN@ {
                        Some(status)
                    } else {
                        None
                    }
                },
                None => None,
            }
        },
        None => None,
    }
}

/// The lines of a text, split at each `\n`. (A trailing `\r` or a final
/// empty piece never holds a presence, so the split need not drop them.)
pub open spec fn split_lines(s: Seq<char>) -> Seq<Seq<char>>
    decreases s.len(),
{
    match find(s, seq!['\n']) {
        Some(i) => {
            if 0 <= i < s.len() {
                seq![s.subrange(0, i)] + split_lines(s.subrange(i + 1, s.len() as int))
            } else {
                seq![s]
            }
        },
        None => seq![s],
    }
}

/// The presence of the last line that reports one.
pub open spec fn last_presence_of_lines(lines: Seq<Seq<char>>) -> Option<Seq<char>>
    decreases lines.len(),
{
    if lines.len() == 0 {
        None
    } else {
        match line_presence(lines.last()) {
            Some(p) => Some(p),
            None => last_presence_of_lines(lines.drop_last()),
        }
    }
}

/// The presence that a stretch of log text reports last.
pub open spec fn presence_in_log(text: Seq<char>) -> Option<Seq<char>> {
    last_presence_of_lines(split_lines(text))
}

/// Where `pat` first occurs in `s[lo..hi]`, counted from `lo`.
fn find_in(s: &[char], lo: usize, hi: usize, pat: &[char]) -> (r: Option<usize>)
    requires
        lo <= hi <= s@.len(),
    ensures
        r matches Some(j) ==> find(s@.subrange(lo as int, hi as int), pat@) == Some(j as int),
        r is None ==> find(s@.subrange(lo as int, hi as int), pat@) is None,
{
    let ghost line = s@.subrange(lo as int, hi as int);
    let n = hi - lo;
    let m = pat.len();
    proof {
        lemma_find_from(line, pat@, 0);
    }
    if m > n {
        return None;
    }
    let mut j: usize = 0;
    while j <= n - m
        invariant
            n == hi - lo,
            m == pat@.len(),
            m <= n,
            j <= n - m + 1,
            lo <= hi <= s@.len(),
            line == s@.subrange(lo as int, hi as int),
            forall|k: int| 0 <= k < j ==> !occurs_at(line, pat@, k),
            find(line, pat@) matches Some(x) ==> occurs_at(line, pat@, x) && forall|k: int| 0 <= k < x ==> !occurs_at(line, pat@, k),
            find(line, pat@) is None ==> forall|k: int| 0 <= k ==> !occurs_at(line, pat@, k),
        decreases n - j,
    {
        let mut t: usize = 0;
        let mut same = true;
        while t < m
            invariant
                0 <= t <= m,
                j + m <= n,
                n == hi - lo,
                m == pat@.len(),
                lo <= hi <= s@.len(),
                line == s@.subrange(lo as int, hi as int),
                same == forall|u: int| 0 <= u < t ==> line[j + u] == pat@[u],
            decreases m - t,
        {
            if s[lo + j + t] != pat[t] {
                same = false;
            }
            t = t + 1;
        }
        assert(same == occurs_at(line, pat@, j as int)) by {
            if same {
                assert(line.subrange(j as int, j + m) =~= pat@);
            } else if occurs_at(line, pat@, j as int) {
                assert forall|u: int| 0 <= u < m implies line[j + u] == pat@[u] by {
                    assert(line.subrange(j as int, j + m)[u] == line[j + u]);
                }
            }
        }
        if same {
            return Some(j);
        }
        j = j + 1;
    }
    proof {
        assert forall|k: int| 0 <= k implies !occurs_at(line, pat@, k) by {
            if k + m > n {
            } else {
                assert(k < j);
            }
        }
    }
    None
}


/// A single character occurs at `k` exactly where `s[k]` is that character.
proof fn lemma_occurs_char(s: Seq<char>, c: char, k: int)
    ensures
        occurs_at(s, seq![c], k) <==> (0 <= k < s.len() && s[k] == c),
{
    if 0 <= k < s.len() && s[k] == c {
        assert(s.subrange(k, k + 1) =~= seq![c]);
    }
    if occurs_at(s, seq![c], k) {
        assert(s.subrange(k, k + 1)[0] == s[k]);
    }
}

/// The presence reported by the line `s[lo..hi]`, as a range of `s`.
fn line_presence_range(s: &[char], lo: usize, hi: usize, prefix: &[char], unknown: &[char]) -> (r:
    Option<(usize, usize)>)
    requires
        lo <= hi <= s@.len(),
        prefix@ == PRESENCE_PREFIX@,
        unknown@ == PRESENCE_UNKNOWN@,
    ensures
        r matches Some((a, b)) ==> lo <= a <= b <= hi && line_presence(
            s@.subrange(lo as int, hi as int),
        ) == Some(s@.subrange(a as int, b as int)),
        r is None ==> line_presence(s@.subrange(lo as int, hi as int)) is None,
{
    let ghost line = s@.subrange(lo as int, hi as int);
    let start = match find_in(s, lo, hi, prefix) {
        Some(st) => st,
        None => return None,
    };
    proof {
        lemma_find_from(line, prefix@, 0);
    }
    let rest_lo = lo + start + prefix.len();
    let ghost rest = line.subrange(start + PRESENCE_PREFIX@.len(), line.len() as int);
    assert(rest =~= s@.subrange(rest_lo as int, hi as int));
    let close = ['}'];
    assert(close@ =~= seq!['}']);
    let end = match find_in(s, rest_lo, hi, &close) {
        Some(e) => e,
        None => return None,
    };
    proof {
        lemma_find_from(rest, seq!['}'], 0);
    }
    let a = rest_lo;
    let b = rest_lo + end;
    assert(rest.subrange(0, end as int) =~= s@.subrange(a as int, b as int));
    let status = &s[a..b];
    assert(status@ =~= s@.subrange(a as int, b as int));
    if same_chars(status, unknown) {
        None
    } else {
        Some((a, b))
    }
}

/// The split of a text whose first line break is at `i`.
proof fn lemma_split_at_break(t: Seq<char>, i: int)
    requires
        0 <= i < t.len(),
        t[i] == '\n',
        forall|k: int| 0 <= k < i ==> t[k] != '\n',
    ensures
        split_lines(t) == seq![t.subrange(0, i)] + split_lines(t.subrange(i + 1, t.len() as int)),
{
    lemma_find_from(t, seq!['\n'], 0);
    lemma_occurs_char(t, '\n', i);
    assert forall|k: int| 0 <= k < i implies !occurs_at(t, seq!['\n'], k) by {
        lemma_occurs_char(t, '\n', k);
    }
    match find(t, seq!['\n']) {
        Some(j) => {
            if j < i {
                lemma_occurs_char(t, '\n', j);
            } else if j > i {
            }
        },
        None => {},
    }
}

/// The split of a text without line break is that text alone.
proof fn lemma_split_no_break(t: Seq<char>)
    requires
        forall|k: int| 0 <= k < t.len() ==> t[k] != '\n',
    ensures
        split_lines(t) == seq![t],
{
    lemma_find_from(t, seq!['\n'], 0);
    match find(t, seq!['\n']) {
        Some(j) => {
            lemma_occurs_char(t, '\n', j);
        },
        None => {},
    }
}

/// The presence that the last presence line of `text` reports, if any.
pub fn presence_from_log(text: &str) -> (r: Option<String>)
    ensures
        r matches Some(p) ==> presence_in_log(text@) == Some(p@),
        r is None ==> presence_in_log(text@) is None,
{
    let chars = chars_of(text);
    let prefix = chars_of(PRESENCE_PREFIX);
    let unknown = chars_of(PRESENCE_UNKNOWN);
    let n = chars.len();
    let ghost s = chars@;
    let mut start: usize = 0;
    let mut best: Option<(usize, usize)> = None;
    let ghost mut done: Seq<Seq<char>> = Seq::empty();
    assert(s.subrange(0, n as int) =~= s);
    assert(done + split_lines(s) =~= split_lines(s));
    for i in 0..n
        invariant
            n == chars@.len(),
            s == chars@,
            s == text@,
            prefix@ == PRESENCE_PREFIX@,
            unknown@ == PRESENCE_UNKNOWN@,
            start <= i,
            forall|k: int| start <= k < i ==> s[k] != '\n',
            split_lines(s) == done + split_lines(s.subrange(start as int, n as int)),
            best matches Some((a, b)) ==> a <= b <= n && last_presence_of_lines(done) == Some(
                s.subrange(a as int, b as int),
            ),
            best is None ==> last_presence_of_lines(done) is None,
    {
        if chars[i] == '\n' {
            let ghost t = s.subrange(start as int, n as int);
            proof {
                assert(t[i - start] == '\n');
                lemma_split_at_break(t, i - start);
                assert(t.subrange(0, i - start) =~= s.subrange(start as int, i as int));
                assert(t.subrange(i - start + 1, t.len() as int) =~= s.subrange(i + 1, n as int));
            }
            let found = line_presence_range(chars.as_slice(), start, i, prefix.as_slice(), unknown.as_slice());
            proof {
                let line = s.subrange(start as int, i as int);
                let done2 = done.push(line);
                assert(done2.drop_last() =~= done);
                assert(done + split_lines(t) =~= done2 + split_lines(s.subrange(i + 1, n as int)));
                done = done2;
            }
            if found.is_some() {
                best = found;
            }
            start = i + 1;
        }
    }
    let ghost t = s.subrange(start as int, n as int);
    proof {
        lemma_split_no_break(t);
    }
    let found = line_presence_range(chars.as_slice(), start, n, prefix.as_slice(), unknown.as_slice());
    proof {
        let done2 = done.push(t);
        assert(done2.drop_last() =~= done);
        assert(split_lines(s) =~= done2);
        done = done2;
    }
    if found.is_some() {
        best = found;
    }
    match best {
        Some((a, b)) => {
            let status = string_from_chars(&chars.as_slice()[a..b]);
            Some(status)
        },
        None => None,
    }
}


/// Whether `s` begins with `p`.
pub open spec fn starts_with(s: Seq<char>, p: Seq<char>) -> bool {
    p.len() <= s.len() && s.take(p.len() as int) == p
}

/// Whether `s` ends with `p`.
pub open spec fn ends_with(s: Seq<char>, p: Seq<char>) -> bool {
    p.len() <= s.len() && s.skip(s.len() - p.len()) == p
}

/// Whether a file name is that of a Teams client log: `MSTeams_*.log`.
pub open spec fn is_log_name(name: Seq<char>) -> bool {
    starts_with(name, "MSTeams_"@) && ends_with(name, ".log"@)
}

fn chars_start_with(s: &[char], p: &[char]) -> (r: bool)
    ensures
        r == starts_with(s@, p@),
{
    if p.len() > s.len() {
        return false;
    }
    let r = same_chars(&s[0..p.len()], p);
    assert(s@.subrange(0, p@.len() as int) =~= s@.take(p@.len() as int));
    r
}

fn chars_end_with(s: &[char], p: &[char]) -> (r: bool)
    ensures
        r == ends_with(s@, p@),
{
    if p.len() > s.len() {
        return false;
    }
    let r = same_chars(&s[s.len() - p.len()..s.len()], p);
    assert(s@.subrange(s@.len() - p@.len(), s@.len() as int) =~= s@.skip(s@.len() - p@.len()));
    r
}

/// Whether a file name is that of a Teams client log: `MSTeams_*.log`.
pub fn is_teams_log_name(name: &str) -> (r: bool)
    ensures
        r == is_log_name(name@),
{
    let n = chars_of(name);
    let p = chars_of("MSTeams_");
    let e = chars_of(".log");
    chars_start_with(n.as_slice(), p.as_slice()) && chars_end_with(n.as_slice(), e.as_slice())
}

/// A directory entry of the log directory, as far as the choice of the log
/// file needs it.
pub struct LogFileEntry {
    /// Full path of the entry.
    pub path: String,
    /// The entry's file name, if it is valid Unicode.
    pub file_name: Option<String>,
    /// Whether the entry is a regular file.
    pub is_file: bool,
    /// Last modification, in nanoseconds after the Unix epoch (0 for any
    /// earlier time); `None` where it could not be read.
    pub modified_nanos: Option<u128>,
}

/// Mathematical value of a directory entry.
pub type LogFileSpec = (Seq<char>, Option<Seq<char>>, bool, Option<u128>);

impl View for LogFileEntry {
    type V = LogFileSpec;

    open spec fn view(&self) -> LogFileSpec {
        (
            self.path@,
            match self.file_name {
                Some(n) => Some(n@),
                None => None,
            },
            self.is_file,
            self.modified_nanos,
        )
    }
}

/// Whether an entry may be chosen as the log file.
pub open spec fn is_candidate(e: LogFileSpec) -> bool {
    e.2 && (e.1 matches Some(n) && is_log_name(n)) && e.3 is Some
}

/// The latest modification among the first `n` entries and the path of the
/// first entry that has it, where that time is after the epoch.
pub open spec fn newest_among(es: Seq<LogFileSpec>, n: int) -> (u128, Option<Seq<char>>)
    decreases n,
{
    if n <= 0 {
        (0, None)
    } else {
        let (t, best) = newest_among(es, n - 1);
        let e = es[n - 1];
        if is_candidate(e) && e.3.unwrap() > t {
            (e.3.unwrap(), Some(e.0))
        } else {
            (t, best)
        }
    }
}

/// The log file to follow after a directory scan: the most recently
/// modified log, or the current file when the scan found none.
pub open spec fn choose_log_file(es: Seq<LogFileSpec>, current: Option<Seq<char>>) -> Option<
    Seq<char>,
> {
    match newest_among(es, es.len() as int).1 {
        Some(p) => Some(p),
        None => current,
    }
}

/// The newest Teams log among the entries of a directory scan; `current`
/// when there is none.
pub fn newest_log_file(entries: &Vec<LogFileEntry>, current: &Option<String>) -> (r: Option<String>)
    ensures
        ({
            let cur = match current {
                Some(c) => Some(c@),
                None => None,
            };
            match r {
                Some(p) => choose_log_file(entries@.map_values(|e: LogFileEntry| e@), cur) == Some(p@),
                None => choose_log_file(entries@.map_values(|e: LogFileEntry| e@), cur) is None,
            }
        }),
{
    let ghost es = entries@.map_values(|e: LogFileEntry| e@);
    let mut max: u128 = 0;
    let mut best: Option<usize> = None;
    let n = entries.len();
    for i in 0..n
        invariant
            n == entries@.len(),
            es == entries@.map_values(|e: LogFileEntry| e@),
            newest_among(es, i as int).0 == max,
            best matches Some(k) ==> k < i && newest_among(es, i as int).1 == Some(es[k as int].0),
            best is None ==> newest_among(es, i as int).1 is None,
    {
        let e = &entries[i];
        let named = match &e.file_name {
            Some(name) => is_teams_log_name(name.as_str()),
            None => false,
        };
        if e.is_file && named {
            match e.modified_nanos {
                Some(t) => {
                    if t > max {
                        max = t;
                        best = Some(i);
                    }
                },
                None => {},
            }
        }
    }
    match best {
        Some(k) => Some(entries[k].path.clone()),
        None => match current {
            Some(c) => Some(c.clone()),
            None => None,
        },
    }
}


/// How long a directory scan stays good before the log directory is listed
/// again, in milliseconds (a scan is redone once strictly more has passed).
pub const RESCAN_INTERVAL_MS: u64 = 60000;

/// What the caller does next while a poll of the Teams log runs.
pub enum TeamsStep {
    /// The poll is over; this is the presence to report.
    Done(Option<String>),
    /// List the log directory and hand the entries to `scanned`.
    ScanDirectory,
    /// Open this file and hand the outcome to `opened`.
    OpenFile(String),
    /// Read the open file from this byte offset to its end and hand the
    /// text, or the failure, to `read`.
    ReadFrom(u64),
}

/// The outcome of opening the log file.
#[derive(Clone, Copy)]
pub enum OpenOutcome {
    /// The file could not be opened.
    Failed,
    /// The file is open; its length in bytes, if its metadata could be read.
    Opened(Option<u64>),
}

/// The state of a Teams log follower, as mathematical values.
pub struct TeamsState {
    pub log_directory: Seq<char>,
    pub current_file: Option<Seq<char>>,
    pub last_position: u64,
    pub last_presence: Option<Seq<char>>,
    pub last_dir_scan_ms: Option<u64>,
}

/// Follows the newest Teams client log and remembers the last presence it
/// reported.
pub struct TeamsClient {
    log_directory: String,
    current_file: Option<String>,
    last_position: u64,
    last_presence: Option<String>,
    last_dir_scan_ms: Option<u64>,
}

impl View for TeamsClient {
    type V = TeamsState;

    closed spec fn view(&self) -> TeamsState {
        TeamsState {
            log_directory: self.log_directory@,
            current_file: opt_chars(self.current_file),
            last_position: self.last_position,
            last_presence: opt_chars(self.last_presence),
            last_dir_scan_ms: self.last_dir_scan_ms,
        }
    }
}

/// Whether the log directory is due to be listed again at `now_ms`.
pub open spec fn scan_due(last_scan: Option<u64>, now_ms: u64) -> bool {
    match last_scan {
        Some(t) => (if now_ms >= t { now_ms - t } else { 0 }) > RESCAN_INTERVAL_MS,
        None => true,
    }
}

/// The state after deciding to follow `file`: a new file is read from its
/// start.
pub open spec fn follow_state(s: TeamsState, file: Seq<char>) -> TeamsState {
    if s.current_file == Some(file) {
        s
    } else {
        TeamsState { current_file: Some(file), last_position: 0, ..s }
    }
}

/// The last presence after reading `text`: the text's last reported
/// presence where it has one, the earlier one otherwise.
pub open spec fn presence_after_read(last: Option<Seq<char>>, text: Seq<char>) -> Option<Seq<char>> {
    match presence_in_log(text) {
        Some(p) => Some(p),
        None => last,
    }
}

/// Mathematical value of a poll step.
pub enum StepSpec {
    Done(Option<Seq<char>>),
    ScanDirectory,
    OpenFile(Seq<char>),
    ReadFrom(u64),
}

impl View for TeamsStep {
    type V = StepSpec;

    open spec fn view(&self) -> StepSpec {
        match self {
            TeamsStep::Done(p) => StepSpec::Done(opt_chars(*p)),
            TeamsStep::ScanDirectory => StepSpec::ScanDirectory,
            TeamsStep::OpenFile(f) => StepSpec::OpenFile(f@),
            TeamsStep::ReadFrom(off) => StepSpec::ReadFrom(*off),
        }
    }
}

/// Moves to `file` and opens it, or ends the poll where there is none.
pub open spec fn follow_spec(s: TeamsState, file: Option<Seq<char>>) -> (TeamsState, StepSpec) {
    match file {
        Some(f) => (follow_state(s, f), StepSpec::OpenFile(f)),
        None => (s, StepSpec::Done(s.last_presence)),
    }
}

/// The start of a poll at `now_ms`.
pub open spec fn begin_poll_spec(s: TeamsState, dir_exists: bool, now_ms: u64) -> (TeamsState, StepSpec) {
    if !dir_exists {
        (s, StepSpec::Done(None))
    } else if scan_due(s.last_dir_scan_ms, now_ms) {
        (s, StepSpec::ScanDirectory)
    } else {
        follow_spec(s, s.current_file)
    }
}

/// A directory scan made at `now_ms` found `entries`.
pub open spec fn scanned_spec(s: TeamsState, entries: Seq<LogFileSpec>, now_ms: u64) -> (TeamsState, StepSpec) {
    follow_spec(
        TeamsState { last_dir_scan_ms: Some(now_ms), ..s },
        choose_log_file(entries, s.current_file),
    )
}

/// The log file was opened (with its length, if known), or not.
pub open spec fn opened_spec(s: TeamsState, outcome: OpenOutcome) -> (TeamsState, StepSpec) {
    match outcome {
        OpenOutcome::Failed => (s, StepSpec::Done(s.last_presence)),
        OpenOutcome::Opened(len) => {
            let shrunk = len matches Some(l) && l < s.last_position;
            let s2 = if shrunk {
                TeamsState { last_position: 0, ..s }
            } else {
                s
            };
            (s2, StepSpec::ReadFrom(s2.last_position))
        },
    }
}

/// The file was read from the offset to its end: the text and its length
/// in bytes, or `None` where the read failed.
pub open spec fn read_spec(s: TeamsState, text: Option<(Seq<char>, int)>) -> (TeamsState, StepSpec) {
    let s2 = match text {
        Some((t, n)) => TeamsState {
            last_position: (s.last_position + n) as u64,
            last_presence: presence_after_read(s.last_presence, t),
            ..s
        },
        None => s,
    };
    (s2, StepSpec::Done(s2.last_presence))
}

/// What a text read amounts to: its characters and its length in bytes.
pub open spec fn read_input(text: Option<&str>) -> Option<(Seq<char>, int)> {
    match text {
        Some(t) => Some((t@, t.len() as int)),
        None => None,
    }
}

impl TeamsClient {
    /// A follower of the logs in `log_directory` that has seen nothing yet.
    pub fn new(log_directory: String) -> (c: Self)
        ensures
            c@ == (TeamsState {
                log_directory: log_directory@,
                current_file: None,
                last_position: 0,
                last_presence: None,
                last_dir_scan_ms: None,
            }),
    {
        TeamsClient {
            log_directory,
            current_file: None,
            last_position: 0,
            last_presence: None,
            last_dir_scan_ms: None,
        }
    }

    /// Whether a log file has been found.
    pub fn has_valid_log(&self) -> (r: bool)
        ensures
            r == (self@.current_file is Some),
    {
        self.current_file.is_some()
    }

    /// The directory whose logs are followed.
    pub fn log_directory(&self) -> (d: &String)
        ensures
            d@ == self@.log_directory,
    {
        &self.log_directory
    }

    /// The log file followed, if one has been found.
    pub fn current_file(&self) -> (f: &Option<String>)
        ensures
            opt_chars(*f) == self@.current_file,
    {
        &self.current_file
    }

    /// Byte offset up to which the current file has been read.
    pub fn last_position(&self) -> (p: u64)
        ensures
            p == self@.last_position,
    {
        self.last_position
    }

    /// The last presence that the log reported.
    pub fn last_presence(&self) -> (p: Option<String>)
        ensures
            opt_chars(p) == self@.last_presence,
    {
        clone_opt(&self.last_presence)
    }

    fn follow(&mut self, file: Option<String>) -> (step: TeamsStep)
        ensures
            (final(self)@, step@) == follow_spec(old(self)@, opt_chars(file)),
    {
        match file {
            Some(f) => {
                let same = match &self.current_file {
                    Some(c) => same_text(c.as_str(), f.as_str()),
                    None => false,
                };
                if !same {
                    self.current_file = Some(f.clone());
                    self.last_position = 0;
                }
                proof {
                    assert(self@ == follow_state(old(self)@, f@));
                }
                TeamsStep::OpenFile(f)
            },
            None => TeamsStep::Done(clone_opt(&self.last_presence)),
        }
    }

    /// Starts a poll at time `now_ms`. A missing log directory ends it with
    /// no presence; a due directory scan comes first; otherwise the current
    /// file is read on.
    pub fn begin_poll(&mut self, dir_exists: bool, now_ms: u64) -> (step: TeamsStep)
        ensures
            (final(self)@, step@) == begin_poll_spec(old(self)@, dir_exists, now_ms),
    {
        if !dir_exists {
            return TeamsStep::Done(None);
        }
        let due = match self.last_dir_scan_ms {
            Some(t) => now_ms.saturating_sub(t) > RESCAN_INTERVAL_MS,
            None => true,
        };
        if due {
            TeamsStep::ScanDirectory
        } else {
            let cur = clone_opt(&self.current_file);
            self.follow(cur)
        }
    }

    /// Takes the entries of the directory scan made at `now_ms` (none if
    /// the directory could not be listed) and moves to the newest log.
    pub fn scanned(&mut self, entries: &Vec<LogFileEntry>, now_ms: u64) -> (step: TeamsStep)
        ensures
            (final(self)@, step@) == scanned_spec(
                old(self)@,
                entries@.map_values(|e: LogFileEntry| e@),
                now_ms,
            ),
    {
        let newest = newest_log_file(entries, &self.current_file);
        self.last_dir_scan_ms = Some(now_ms);
        self.follow(newest)
    }

    /// Takes the outcome of opening the log file. A file shorter than the
    /// offset read so far was replaced and is read from its start.
    pub fn opened(&mut self, outcome: &OpenOutcome) -> (step: TeamsStep)
        ensures
            (final(self)@, step@) == opened_spec(old(self)@, *outcome),
    {
        match outcome {
            OpenOutcome::Failed => TeamsStep::Done(clone_opt(&self.last_presence)),
            OpenOutcome::Opened(len) => {
                match len {
                    Some(l) => {
                        if *l < self.last_position {
                            self.last_position = 0;
                        }
                    },
                    None => {},
                }
                TeamsStep::ReadFrom(self.last_position)
            },
        }
    }

    /// Takes the text read from the file's offset to its end (`None` if the
    /// seek or the read failed), moves the offset past it and records the
    /// last presence it reports; the poll ends with the last presence known.
    pub fn read(&mut self, text: Option<&str>) -> (step: TeamsStep)
        requires
            text matches Some(t) ==> old(self)@.last_position + t.len() <= u64::MAX,
        ensures
            (final(self)@, step@) == read_spec(old(self)@, read_input(text)),
    {
        match text {
            None => {},
            Some(t) => {
                self.last_position = self.last_position + t.len() as u64;
                match presence_from_log(t) {
                    Some(p) => {
                        if !same_opt_text(&Some(p.clone()), &self.last_presence) {
                            self.last_presence = Some(p);
                        }
                    },
                    None => {},
                }
            },
        }
        TeamsStep::Done(clone_opt(&self.last_presence))
    }
}


/// `PresenceUnknown` is never reported as a presence.
pub proof fn law_unknown_never_reported(text: Seq<char>)
    ensures
        presence_in_log(text) != Some(PRESENCE_UNKNOWN@),
{
    lemma_lines_never_unknown(split_lines(text));
}

proof fn lemma_lines_never_unknown(lines: Seq<Seq<char>>)
    ensures
        last_presence_of_lines(lines) != Some(PRESENCE_UNKNOWN@),
    decreases lines.len(),
{
    if lines.len() > 0 {
        lemma_lines_never_unknown(lines.drop_last());
    }
}

/// A line that reports a presence decides the presence of every text that
/// it ends.
pub proof fn law_last_line_wins(lines: Seq<Seq<char>>, line: Seq<char>)
    requires
        line_presence(line) is Some,
    ensures
        last_presence_of_lines(lines.push(line)) == line_presence(line),
{
    assert(lines.push(line).last() == line);
}

/// Once a presence is known, reading more of the log never forgets it.
pub proof fn law_presence_is_kept(last: Option<Seq<char>>, text: Seq<char>)
    requires
        last is Some,
    ensures
        presence_after_read(last, text) is Some,
{
}


/// The time of a candidate entry.
pub open spec fn entry_time(e: LogFileSpec) -> u128 {
    e.3.unwrap()
}

/// The log chosen by a scan is the first candidate with the latest
/// modification time, where that time is after the epoch; no candidate is
/// chosen when none was modified after it.
pub proof fn law_newest_is_first_latest(es: Seq<LogFileSpec>, n: int)
    requires
        0 <= n <= es.len(),
    ensures
        ({
            let (t, best) = newest_among(es, n);
            &&& forall|j: int| 0 <= j < n && is_candidate(es[j]) ==> entry_time(es[j]) <= t
            &&& best is None <==> t == 0
            &&& best is None ==> forall|j: int| 0 <= j < n && is_candidate(es[j]) ==> entry_time(es[j]) == 0
            &&& best matches Some(p) ==> exists|k: int| {
                &&& 0 <= k < n
                &&& is_candidate(es[k])
                &&& es[k].0 == p
                &&& entry_time(es[k]) == t
                &&& forall|j: int| 0 <= j < k && is_candidate(es[j]) ==> entry_time(es[j]) < t
            }
        }),
    decreases n,
{
    if n > 0 {
        law_newest_is_first_latest(es, n - 1);
        let (t, best) = newest_among(es, n - 1);
        let e = es[n - 1];
        if is_candidate(e) && e.3.unwrap() > t {
            assert forall|j: int| 0 <= j < n - 1 && is_candidate(es[j]) implies entry_time(es[j]) < entry_time(e) by {}
        } else {
            if best is Some {
                let k = choose|k: int| {
                    &&& 0 <= k < n - 1
                    &&& is_candidate(es[k])
                    &&& es[k].0 == best.unwrap()
                    &&& entry_time(es[k]) == t
                    &&& forall|j: int| 0 <= j < k && is_candidate(es[j]) ==> entry_time(es[j]) < t
                };
                assert(0 <= k < n);
            }
        }
    }
}


/// The outcomes of the I/O that a poll asks for: whether the log directory
/// exists, the time, the entries a directory scan would find, the outcome
/// of opening the log file, and the text read from it (with its length in
/// bytes), if the read succeeds.
pub struct PollIo {
    pub dir_exists: bool,
    pub now_ms: u64,
    pub entries: Seq<LogFileSpec>,
    pub open: OpenOutcome,
    pub text: Option<(Seq<char>, int)>,
}

/// A whole poll, step after step, with the outcomes `io`: the state after
/// it, the presence it reports, and the offset it read from (if it read).
pub open spec fn poll_spec(s: TeamsState, io: PollIo) -> (TeamsState, Option<Seq<char>>, Option<u64>) {
    let (s1, a1) = begin_poll_spec(s, io.dir_exists, io.now_ms);
    let (s2, a2) = match a1 {
        StepSpec::ScanDirectory => scanned_spec(s1, io.entries, io.now_ms),
        _ => (s1, a1),
    };
    let (s3, a3) = match a2 {
        StepSpec::OpenFile(_) => opened_spec(s2, io.open),
        _ => (s2, a2),
    };
    let (s4, a4) = match a3 {
        StepSpec::ReadFrom(_) => read_spec(s3, io.text),
        _ => (s3, a3),
    };
    let offset = match a3 {
        StepSpec::ReadFrom(off) => Some(off),
        _ => None,
    };
    match a4 {
        StepSpec::Done(p) => (s4, p, offset),
        _ => (s4, None, offset),
    }
}

/// A poll changes the log file followed only through a directory scan, to
/// the newest log or, failing one, the file followed before: so a follower
/// has no log until a scan finds one, and a log once found stays found.
pub proof fn law_log_found_by_scan(s: TeamsState, io: PollIo)
    ensures
        poll_spec(s, io).0.current_file == (if io.dir_exists && scan_due(s.last_dir_scan_ms, io.now_ms) {
            choose_log_file(io.entries, s.current_file)
        } else {
            s.current_file
        }),
        s.current_file is Some ==> poll_spec(s, io).0.current_file is Some,
{
}

/// A poll that finds the log directory and reads no new presence reports
/// the presence known before it, and keeps it.
pub proof fn law_poll_keeps_presence(s: TeamsState, io: PollIo, known: Seq<char>)
    requires
        s.last_presence == Some(known),
        io.dir_exists,
        io.text matches Some((t, n)) ==> presence_in_log(t) is None,
    ensures
        poll_spec(s, io).1 == Some(known),
        poll_spec(s, io).0.last_presence == Some(known),
{
}

/// A poll that stays with the same log file, which was not truncated,
/// reads it from where the last read ended, so text read before is never
/// parsed again; it reports the last presence of the new text, or the one
/// known before where the new text has none.
pub proof fn law_poll_reads_only_new_text(s: TeamsState, io: PollIo, file: Seq<char>, t: Seq<char>, n: int)
    requires
        s.current_file == Some(file),
        io.dir_exists,
        !scan_due(s.last_dir_scan_ms, io.now_ms) || choose_log_file(io.entries, Some(file)) == Some(file),
        io.open matches OpenOutcome::Opened(len) && (len matches Some(l) ==> l >= s.last_position),
        io.text == Some((t, n)),
    ensures
        poll_spec(s, io).2 == Some(s.last_position),
        poll_spec(s, io).1 == presence_after_read(s.last_presence, t),
        poll_spec(s, io).0.last_position == (s.last_position + n) as u64,
        poll_spec(s, io).0.current_file == Some(file),
{
}


/// A log line made of text without the presence prefix, the prefix, a
/// status without `}`, a `}` and any further text reports exactly that
/// status, unless it is `PresenceUnknown`; a text made of such a line,
/// alone, reports that status.
pub proof fn law_presence_line_reports_status(head: Seq<char>, status: Seq<char>, tail: Seq<char>)
    requires
        forall|k: int| 0 <= k < head.len() ==> !occurs_at(
            head + PRESENCE_PREFIX@ + status + seq!['}'] + tail,
            PRESENCE_PREFIX@,
            k,
        ),
        forall|k: int| 0 <= k < status.len() ==> status[k] != '}',
        forall|k: int|
            0 <= k < (head + PRESENCE_PREFIX@ + status + seq!['}'] + tail).len() ==> (head + PRESENCE_PREFIX@
                + status + seq!['}'] + tail)[k] != '\n',
    ensures
        status != PRESENCE_UNKNOWN@ ==> line_presence(head + PRESENCE_PREFIX@ + status + seq!['}'] + tail)
            == Some(status),
        status == PRESENCE_UNKNOWN@ ==> line_presence(head + PRESENCE_PREFIX@ + status + seq!['}'] + tail)
            is None,
        status != PRESENCE_UNKNOWN@ ==> presence_in_log(head + PRESENCE_PREFIX@ + status + seq!['}'] + tail)
            == Some(status),
{
    let p = PRESENCE_PREFIX@;
    let line = head + p + status + seq!['}'] + tail;
    let start = head.len() as int;
    assert(line.subrange(start, start + p.len()) =~= p);
    assert(occurs_at(line, p, start));
    lemma_find_from(line, p, 0);
    match find(line, p) {
        Some(j) => {
            if j < start {
            } else if j > start {
            }
            assert(j == start);
        },
        None => {},
    }
    let rest = line.subrange(start + p.len(), line.len() as int);
    assert(rest =~= status + seq!['}'] + tail);
    let e = status.len() as int;
    assert(rest[e] == '}');
    lemma_occurs_char(rest, '}', e);
    lemma_find_from(rest, seq!['}'], 0);
    assert forall|k: int| 0 <= k < e implies !occurs_at(rest, seq!['}'], k) by {
        lemma_occurs_char(rest, '}', k);
        assert(rest[k] == status[k]);
    }
    match find(rest, seq!['}']) {
        Some(j) => {
            if j < e {
            } else if j > e {
            }
            assert(j == e);
        },
        None => {},
    }
    assert(rest.subrange(0, e) =~= status);
    lemma_split_no_break(line);
    assert(seq![line].drop_last() =~= Seq::<Seq<char>>::empty());
}


/// Splitting at a line break splits each side on its own.
proof fn lemma_split_concat(x: Seq<char>, y: Seq<char>)
    ensures
        split_lines(x + seq!['\n'] + y) == split_lines(x) + split_lines(y),
    decreases x.len(),
{
    let t = x + seq!['\n'] + y;
    if exists|i: int| 0 <= i < x.len() && x[i] == '\n' {
        lemma_first_break(x);
        let i = choose|i: int| 0 <= i < x.len() && x[i] == '\n' && forall|k: int| 0 <= k < i ==> x[k] != '\n';
        lemma_split_at_break(x, i);
        assert(t[i] == '\n');
        assert forall|k: int| 0 <= k < i implies t[k] != '\n' by {
            assert(t[k] == x[k]);
        }
        lemma_split_at_break(t, i);
        let x2 = x.subrange(i + 1, x.len() as int);
        lemma_split_concat(x2, y);
        assert(t.subrange(i + 1, t.len() as int) =~= x2 + seq!['\n'] + y);
        assert(t.subrange(0, i) =~= x.subrange(0, i));
        assert(split_lines(t) =~= split_lines(x) + split_lines(y));
    } else {
        lemma_split_no_break(x);
        let i = x.len() as int;
        assert(t[i] == '\n');
        assert forall|k: int| 0 <= k < i implies t[k] != '\n' by {
            assert(t[k] == x[k]);
        }
        lemma_split_at_break(t, i);
        assert(t.subrange(0, i) =~= x);
        assert(t.subrange(i + 1, t.len() as int) =~= y);
    }
}

/// A text with a line break has a first one.
proof fn lemma_first_break(x: Seq<char>)
    requires
        exists|i: int| 0 <= i < x.len() && x[i] == '\n',
    ensures
        exists|i: int| 0 <= i < x.len() && x[i] == '\n' && forall|k: int| 0 <= k < i ==> x[k] != '\n',
    decreases x.len(),
{
    if x[0] == '\n' {
        assert(0 < x.len() && x[0] == '\n');
    } else {
        let y = x.drop_first();
        let i0 = choose|i: int| 0 <= i < x.len() && x[i] == '\n';
        assert(y[i0 - 1] == '\n');
        lemma_first_break(y);
        let j = choose|j: int| 0 <= j < y.len() && y[j] == '\n' && forall|k: int| 0 <= k < j ==> y[k] != '\n';
        assert(x[j + 1] == '\n');
        assert forall|k: int| 0 <= k < j + 1 implies x[k] != '\n' by {
            if k > 0 {
                assert(x[k] == y[k - 1]);
            }
        }
    }
}

/// Whatever came before, a presence line that ends the text decides the
/// presence the text reports: exactly the status between the prefix and
/// the next `}`, unless it is `PresenceUnknown`.
pub proof fn law_last_presence_line_decides(
    earlier: Seq<char>,
    head: Seq<char>,
    status: Seq<char>,
    tail: Seq<char>,
)
    requires
        forall|k: int| 0 <= k < head.len() ==> !occurs_at(
            head + PRESENCE_PREFIX@ + status + seq!['}'] + tail,
            PRESENCE_PREFIX@,
            k,
        ),
        forall|k: int| 0 <= k < status.len() ==> status[k] != '}',
        forall|k: int|
            0 <= k < (head + PRESENCE_PREFIX@ + status + seq!['}'] + tail).len() ==> (head + PRESENCE_PREFIX@
                + status + seq!['}'] + tail)[k] != '\n',
        status != PRESENCE_UNKNOWN@,
    ensures
        presence_in_log(earlier + seq!['\n'] + (head + PRESENCE_PREFIX@ + status + seq!['}'] + tail)) == Some(
            status,
        ),
{
    let line = head + PRESENCE_PREFIX@ + status + seq!['}'] + tail;
    law_presence_line_reports_status(head, status, tail);
    lemma_split_concat(earlier, line);
    lemma_split_no_break(line);
    law_last_line_wins(split_lines(earlier), line);
    assert(split_lines(earlier) + seq![line] =~= split_lines(earlier).push(line));
}

} // verus!
